use yubaba::conversion::{image_effects_of, image_quality, input_paths, plan_conversion, Conversion};
use yubaba::decimal::i16_decimal;
use yubaba::files::{FileEntry, ImageSettings};
use yubaba::format::Format;

fn pairs(v: &[(&str, &str)]) -> Vec<(String, String)> {
    v.iter().map(|(k, x)| (k.to_string(), x.to_string())).collect()
}

#[test]
fn decimal_text_of_i16() {
    for v in [0i16, 7, 9, 10, 45, -1, -90, 180, -180, 1000, i16::MAX, i16::MIN] {
        assert_eq!(i16_decimal(v), format!("{}", v));
    }
}

#[test]
fn quality_depends_on_compression() {
    let mut s = ImageSettings::default();
    assert_eq!(image_quality(&s), 85);
    s.compress = true;
    assert_eq!(image_quality(&s), 15);
}

#[test]
fn no_effects_by_default() {
    assert!(image_effects_of(&ImageSettings::default()).is_empty());
}

#[test]
fn every_effect_in_order() {
    let s = ImageSettings { compress: true, h_flip: true, greyscale: true, rotate: -90, smoothing: true };
    assert_eq!(
        image_effects_of(&s),
        pairs(&[("symetrie", ""), ("niveaux_de_gris", ""), ("lissage", ""), ("rotation", "-90")])
    );
}

#[test]
fn rotation_alone() {
    let s = ImageSettings { rotate: 180, ..ImageSettings::default() };
    assert_eq!(image_effects_of(&s), pairs(&[("rotation", "180")]));
}

#[test]
fn greyscale_and_smoothing() {
    let s = ImageSettings { greyscale: true, smoothing: true, ..ImageSettings::default() };
    assert_eq!(image_effects_of(&s), pairs(&[("niveaux_de_gris", ""), ("lissage", "")]));
}

#[test]
fn plan_by_kind() {
    assert!(matches!(plan_conversion(&Format::Audio, &None), Conversion::Audio));
    assert!(matches!(plan_conversion(&Format::Video, &None), Conversion::Video));
    assert!(matches!(plan_conversion(&Format::Unknown, &None), Conversion::Skip));
    match plan_conversion(&Format::Image, &None) {
        Conversion::Image { effects, quality } => {
            assert!(effects.is_empty());
            assert_eq!(quality, 85);
        }
        _ => panic!("images are converted as images"),
    }
    let s = ImageSettings { compress: true, h_flip: true, ..ImageSettings::default() };
    match plan_conversion(&Format::Image, &Some(s)) {
        Conversion::Image { effects, quality } => {
            assert_eq!(effects, pairs(&[("symetrie", "")]));
            assert_eq!(quality, 15);
        }
        _ => panic!("images are converted as images"),
    }
}

#[test]
fn paths_of_files() {
    let files = vec![
        FileEntry { name: "a".to_string(), extension: "png".to_string(), path: "/x/a.png".to_string() },
        FileEntry { name: "b".to_string(), extension: "jpg".to_string(), path: "/y/b.jpg".to_string() },
    ];
    assert_eq!(input_paths(&files), vec!["/x/a.png", "/y/b.jpg"]);
    assert!(input_paths(&Vec::new()).is_empty());
}
