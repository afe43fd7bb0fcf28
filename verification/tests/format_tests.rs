use yubaba::format::Format;
use yubaba::files::{FileEntry, ImageSettings};

#[test]
fn recognises_each_image_extension() {
    for e in ["jpeg", "png", "jpg", "webp", "jfif"] {
        assert_eq!(Format::from_extension(e.to_string()), Format::Image);
    }
}

#[test]
fn recognises_audio_and_video_extensions() {
    for e in ["mp3", "wav", "ogg"] {
        assert_eq!(Format::from_extension(e.to_string()), Format::Audio);
    }
    for e in ["mp4", "mkv", "mov", "avi"] {
        assert_eq!(Format::from_extension(e.to_string()), Format::Video);
    }
}

#[test]
fn unknown_extensions_are_unknown() {
    for e in ["", "PNG", "gif", "txt", "mp", "jpegs", ".png"] {
        assert_eq!(Format::from_extension(e.to_string()), Format::Unknown);
    }
}

#[test]
fn extensions_in_order() {
    assert_eq!(Format::Image.get_extensions(), vec!["jpeg", "png", "jpg", "webp", "jfif"]);
    assert_eq!(Format::Audio.get_extensions(), vec!["mp3", "wav", "ogg"]);
    assert_eq!(Format::Video.get_extensions(), vec!["mp4", "mkv", "mov", "avi"]);
    assert_eq!(
        Format::Unknown.get_extensions(),
        vec!["jpeg", "jfif", "png", "jpg", "webp", "mp3", "wav", "ogg", "mp4", "mkv", "mov", "avi"]
    );
}

#[test]
fn offered_extensions_round_trip() {
    for f in [Format::Image, Format::Audio, Format::Video] {
        for e in f.get_extensions() {
            assert_eq!(Format::from_extension(e), f.clone());
        }
    }
    for e in Format::Unknown.get_extensions() {
        assert_ne!(Format::from_extension(e), Format::Unknown);
    }
}

#[test]
fn filter_names() {
    assert_eq!(Format::Image.to_filter(), "image");
    assert_eq!(Format::Audio.to_filter(), "audio");
    assert_eq!(Format::Video.to_filter(), "video");
    assert_eq!(Format::Unknown.to_filter(), "multimedia");
}

#[test]
fn display_markers() {
    assert_eq!(Format::Image.display(), "🎨 ");
    assert_eq!(Format::Audio.display(), "🎧 ");
    assert_eq!(Format::Video.display(), "🎥 ");
    assert_eq!(Format::Unknown.display(), "  ");
}

#[test]
fn clone_keeps_the_kind() {
    for f in [Format::Image, Format::Audio, Format::Video, Format::Unknown] {
        assert_eq!(f.clone(), f);
    }
}

#[test]
fn file_entry_default() {
    let e = FileEntry::default();
    assert_eq!(e.name, "none");
    assert_eq!(e.extension, "");
    assert_eq!(e.path, "");
}

#[test]
fn file_entry_label() {
    let e = FileEntry { name: "turtle".to_string(), extension: "webp".to_string(), path: "a/turtle.webp".to_string() };
    assert_eq!(e.label(), "turtle.webp");
    assert_eq!(FileEntry::default().label(), "none.");
}

#[test]
fn image_settings_default() {
    let s = ImageSettings::default();
    assert!(!s.compress && !s.h_flip && !s.greyscale && !s.smoothing);
    assert_eq!(s.rotate, 0);
}
