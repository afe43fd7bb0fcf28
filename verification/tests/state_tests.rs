use yubaba::conversion::Conversion;
use yubaba::files::ImageSettings;
use yubaba::format::Format;
use yubaba::state::ConverterState;

fn parts(folder: &str, name: &str, ext: &str) -> Option<Vec<String>> {
    Some(vec![folder.to_string(), name.to_string(), ext.to_string()])
}

#[test]
fn new_state_is_empty() {
    let s = ConverterState::new();
    assert!(s.input_files.is_empty());
    assert!(s.output_folder.is_none());
    assert_eq!(s.file_type, Format::Unknown);
    assert_eq!(s.selected_extension, "");
    assert!(s.image_settings.is_none());
    assert_eq!(s.folder_label(), "No Folder Selected");
}

#[test]
fn first_file_sets_folder_and_kind() {
    let mut s = ConverterState::new();
    s.open_file("/pics/cat.png".to_string(), parts("/pics", "cat", "png"));
    assert_eq!(s.input_files.len(), 1);
    assert_eq!(s.input_files[0].name, "cat");
    assert_eq!(s.input_files[0].extension, "png");
    assert_eq!(s.input_files[0].path, "/pics/cat.png");
    assert_eq!(s.output_folder.as_deref(), Some("/pics"));
    assert_eq!(s.folder_label(), "/pics");
    assert_eq!(s.file_type, Format::Image);

    s.open_file("/music/song.mp3".to_string(), parts("/music", "song", "mp3"));
    assert_eq!(s.input_files.len(), 2);
    assert_eq!(s.output_folder.as_deref(), Some("/pics"));
    assert_eq!(s.file_type, Format::Image);
}

#[test]
fn unreadable_path_keeps_default_entry() {
    let mut s = ConverterState::new();
    s.open_file("weird".to_string(), None);
    assert_eq!(s.input_files[0].name, "none");
    assert_eq!(s.input_files[0].extension, "");
    assert_eq!(s.input_files[0].path, "weird");
    assert!(s.output_folder.is_none());
    assert_eq!(s.file_type, Format::Unknown);
}

#[test]
fn unknown_extension_leaves_kind_open() {
    let mut s = ConverterState::new();
    s.open_file("/d/notes.txt".to_string(), parts("/d", "notes", "txt"));
    assert_eq!(s.file_type, Format::Unknown);
    s.open_file("/d/clip.mkv".to_string(), parts("/d", "clip", "mkv"));
    assert_eq!(s.file_type, Format::Video);
}

#[test]
fn removing_last_file_resets_choices() {
    let mut s = ConverterState::new();
    s.open_file("/p/a.png".to_string(), parts("/p", "a", "png"));
    s.open_file("/p/b.png".to_string(), parts("/p", "b", "png"));
    s.select_extension("jpg".to_string());
    s.ensure_image_settings();
    assert_eq!(s.image_settings, Some(ImageSettings::default()));
    s.remove_file(0);
    assert_eq!(s.input_files.len(), 1);
    assert_eq!(s.input_files[0].name, "b");
    assert_eq!(s.file_type, Format::Image);
    assert_eq!(s.selected_extension, "jpg");
    s.remove_file(0);
    assert!(s.input_files.is_empty());
    assert_eq!(s.file_type, Format::Unknown);
    assert_eq!(s.selected_extension, "");
    assert!(s.image_settings.is_none());
    assert_eq!(s.output_folder.as_deref(), Some("/p"));
}

#[test]
fn image_settings_only_for_images() {
    let mut s = ConverterState::new();
    s.ensure_image_settings();
    assert!(s.image_settings.is_none());
    s.open_file("/a/x.wav".to_string(), parts("/a", "x", "wav"));
    s.ensure_image_settings();
    assert!(s.image_settings.is_none());
    let mut t = ConverterState::new();
    t.open_file("/a/x.jpg".to_string(), parts("/a", "x", "jpg"));
    t.ensure_image_settings();
    let custom = ImageSettings { rotate: 45, ..ImageSettings::default() };
    t.image_settings = Some(custom);
    t.ensure_image_settings();
    assert_eq!(t.image_settings, Some(custom));
}

#[test]
fn convert_without_extension_does_nothing() {
    let mut s = ConverterState::new();
    s.open_file("/p/a.png".to_string(), parts("/p", "a", "png"));
    assert!(s.convert().is_none());
    assert_eq!(s.input_files.len(), 1);
    assert_eq!(s.file_type, Format::Image);
}

#[test]
fn convert_images() {
    let mut s = ConverterState::new();
    s.open_file("/p/a.png".to_string(), parts("/p", "a", "png"));
    s.open_file("/p/b.jpg".to_string(), parts("/p", "b", "jpg"));
    s.select_extension("webp".to_string());
    s.image_settings = Some(ImageSettings { greyscale: true, rotate: 90, compress: true, ..ImageSettings::default() });
    let job = s.convert().expect("a folder is chosen");
    assert_eq!(job.inputs, vec!["/p/a.png", "/p/b.jpg"]);
    assert_eq!(job.output_folder, "/p");
    assert_eq!(job.output_format, "webp");
    match job.conversion {
        Conversion::Image { effects, quality } => {
            assert_eq!(quality, 15);
            assert_eq!(
                effects,
                vec![
                    ("niveaux_de_gris".to_string(), String::new()),
                    ("rotation".to_string(), "90".to_string())
                ]
            );
        }
        _ => panic!("images are converted as images"),
    }
    assert!(s.input_files.is_empty());
    assert_eq!(s.file_type, Format::Unknown);
    assert_eq!(s.selected_extension, "");
    assert!(s.image_settings.is_some());
    assert_eq!(s.output_folder.as_deref(), Some("/p"));
}

#[test]
fn convert_without_folder_clears_but_gives_no_job() {
    let mut s = ConverterState::new();
    s.open_file("song".to_string(), None);
    s.select_extension("ogg".to_string());
    assert!(s.convert().is_none());
    assert!(s.input_files.is_empty());
    assert_eq!(s.selected_extension, "");
}

#[test]
fn convert_unknown_kind_skips() {
    let mut s = ConverterState::new();
    s.select_folder("/out".to_string());
    s.open_file("/in/x.txt".to_string(), parts("/in", "x", "txt"));
    s.select_extension("mp3".to_string());
    let job = s.convert().expect("a folder is chosen");
    assert!(matches!(job.conversion, Conversion::Skip));
    assert_eq!(job.output_folder, "/out");
}

#[test]
fn select_extension_keeps_the_rest() {
    let mut s = ConverterState::new();
    s.open_file("/p/a.wav".to_string(), parts("/p", "a", "wav"));
    s.select_extension("ogg".to_string());
    assert_eq!(s.selected_extension, "ogg");
    assert_eq!(s.file_type, Format::Audio);
    assert_eq!(s.input_files.len(), 1);
    assert_eq!(s.output_folder.as_deref(), Some("/p"));
}

#[test]
fn reset_clears_choices_only() {
    let mut s = ConverterState::new();
    s.open_file("/p/a.mp4".to_string(), parts("/p", "a", "mp4"));
    s.select_extension("avi".to_string());
    s.reset();
    assert_eq!(s.input_files.len(), 1);
    assert_eq!(s.file_type, Format::Unknown);
    assert_eq!(s.selected_extension, "");
    assert_eq!(s.output_folder.as_deref(), Some("/p"));
}
