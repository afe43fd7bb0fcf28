use vstd::prelude::*;

use crate::decimal::{i16_decimal, int_decimal};
use crate::files::{no_effects, FileEntry, ImageSettings};
use crate::format::Format;
use crate::text::strings_view;

verus! {

/// The characters of each key and value of a list of effects, in order.
pub open spec fn pairs_view(list: Seq<(String, String)>) -> Seq<(Seq<char>, Seq<char>)> {
    list.map_values(|p: (String, String)| (p.0@, p.1@))
}

/// The paths of a list of opened files, in order.
pub open spec fn paths_view(files: Seq<FileEntry>) -> Seq<Seq<char>> {
    files.map_values(|f: FileEntry| f.path@)
}

/// The quality handed to the image converter: low when compressing.
pub open spec fn quality_for(compress: bool) -> i16 {
    if compress {
        15
    } else {
        85
    }
}

/// One effect, with its name as the image converter knows it, when `on`.
pub open spec fn effect_if(on: bool, key: Seq<char>, value: Seq<char>) -> Seq<(Seq<char>, Seq<char>)> {
    if on {
        seq![(key, value)]
    } else {
        Seq::empty()
    }
}

/// The effects that settings ask of the image converter, in this order:
/// mirroring, greyscale, smoothing, then the rotation in degrees where it is
/// not zero. Only rotation carries a value.
pub open spec fn image_effects(s: ImageSettings) -> Seq<(Seq<char>, Seq<char>)> {
    effect_if(s.h_flip, "symetrie"@, Seq::empty()) + effect_if(
        s.greyscale,
        "niveaux_de_gris"@,
        Seq::empty(),
    ) + effect_if(s.smoothing, "lissage"@, Seq::empty()) + effect_if(
        s.rotate != 0,
        "rotation"@,
        int_decimal(s.rotate as int),
    )
}

/// The settings in use: those given, or the defaults where there are none.
pub open spec fn settings_or_default(settings: Option<ImageSettings>) -> ImageSettings {
    match settings {
        Some(s) => s,
        None => no_effects(),
    }
}

/// What the converter does with the files, by their kind.
pub enum Conversion {
    /// Convert images, with these effects and this quality.
    Image { effects: Vec<(String, String)>, quality: i16 },
    /// Convert audio files.
    Audio,
    /// Convert video files.
    Video,
    /// Convert nothing: the kind of the files is unknown.
    Skip,
}

/// Whether `c` is what files of kind `file_type` are converted with, under
/// the image settings `settings`.
pub open spec fn conversion_matches(
    c: Conversion,
    file_type: Format,
    settings: Option<ImageSettings>,
) -> bool {
    match file_type {
        Format::Image => c matches Conversion::Image { effects, quality } && pairs_view(effects@)
            == image_effects(settings_or_default(settings)) && quality == quality_for(
            settings_or_default(settings).compress,
        ),
        Format::Audio => c is Audio,
        Format::Video => c is Video,
        Format::Unknown => c is Skip,
    }
}

/// A conversion to run: the files to read, where to write, the extension to
/// write, and how to convert.
pub struct ConversionJob {
    pub inputs: Vec<String>,
    pub output_folder: String,
    pub output_format: String,
    pub conversion: Conversion,
}

/// The quality handed to the image converter.
pub fn image_quality(settings: &ImageSettings) -> (r: i16)
    ensures
        r == quality_for(settings.compress),
{
    if settings.compress {
        15
    } else {
        85
    }
}

fn push_effect(effects: &mut Vec<(String, String)>, on: bool, key: &str, value: String)
    ensures
        pairs_view(final(effects)@) == pairs_view(old(effects)@) + effect_if(on, key@, value@),
{
    let ghost before = effects@;
    if on {
        effects.push((String::from_str(key), value));
        assert(pairs_view(effects@) =~= pairs_view(before) + effect_if(on, key@, value@));
    } else {
        assert(pairs_view(effects@) =~= pairs_view(before) + effect_if(on, key@, value@));
    }
}

/// The effects that `settings` ask of the image converter.
pub fn image_effects_of(settings: &ImageSettings) -> (r: Vec<(String, String)>)
    ensures
        pairs_view(r@) == image_effects(*settings),
        pairs_view(r@).contains(("symetrie"@, Seq::<char>::empty())) <==> settings.h_flip,
        pairs_view(r@).contains(("niveaux_de_gris"@, Seq::<char>::empty())) <==> settings.greyscale,
        pairs_view(r@).contains(("lissage"@, Seq::<char>::empty())) <==> settings.smoothing,
        pairs_view(r@).contains(("rotation"@, int_decimal(settings.rotate as int))) <==> settings.rotate
            != 0,
        forall|i: int|
            0 <= i < r@.len() ==> is_named_effect(#[trigger] pairs_view(r@)[i], *settings),
{
    proof {
        lemma_effects_follow_settings(*settings);
    }
    let mut r: Vec<(String, String)> = Vec::new();
    assert(pairs_view(r@) =~= Seq::empty());
    push_effect(&mut r, settings.h_flip, "symetrie", String::new());
    push_effect(&mut r, settings.greyscale, "niveaux_de_gris", String::new());
    push_effect(&mut r, settings.smoothing, "lissage", String::new());
    if settings.rotate != 0 {
        push_effect(&mut r, true, "rotation", i16_decimal(settings.rotate));
    } else {
        push_effect(&mut r, false, "rotation", String::new());
    }
    assert(pairs_view(r@) =~= image_effects(*settings));
    r
}

/// How files of kind `file_type` are converted, with the image settings
/// `settings` (the defaults where there are none).
pub fn plan_conversion(file_type: &Format, settings: &Option<ImageSettings>) -> (r: Conversion)
    ensures
        conversion_matches(r, *file_type, *settings),
        *file_type == Format::Audio ==> r is Audio,
        *file_type == Format::Video ==> r is Video,
        *file_type == Format::Unknown ==> r is Skip,
        *file_type == Format::Image ==> r is Image,
        *file_type == Format::Image ==> match *settings {
            Some(s) => r matches Conversion::Image { effects, quality } && pairs_view(effects@)
                == image_effects(s) && quality == (if s.compress {
                15i16
            } else {
                85i16
            }),
            None => r matches Conversion::Image { effects, quality } && effects@.len() == 0
                && quality == 85,
        },
{
    let r = match file_type {
        Format::Image => {
            let chosen = match settings {
                Some(s) => *s,
                None => ImageSettings::default(),
            };
            Conversion::Image { effects: image_effects_of(&chosen), quality: image_quality(&chosen) }
        },
        Format::Audio => Conversion::Audio,
        Format::Video => Conversion::Video,
        Format::Unknown => Conversion::Skip,
    };
    proof {
        if *file_type == Format::Image {
            lemma_image_plan_follows_settings(r, *settings);
        }
        lemma_other_kinds_ignore_settings(r, *settings);
    }
    r
}

/// The paths of the opened files, in order.
pub fn input_paths(files: &Vec<FileEntry>) -> (r: Vec<String>)
    ensures
        strings_view(r@) == paths_view(files@),
        r@.len() == files@.len(),
        forall|i: int| 0 <= i < files@.len() ==> #[trigger] r@[i]@ == files@[i].path@,
{
    let mut r: Vec<String> = Vec::new();
    let mut i: usize = 0;
    while i < files.len()
        invariant
            i <= files.len(),
            r@.len() == i,
            forall|j: int| 0 <= j < i ==> r@[j]@ == files@[j].path@,
        decreases files.len() - i,
    {
        r.push(files[i].path.clone());
        i = i + 1;
    }
    assert(strings_view(r@) =~= paths_view(files@));
    proof {
        lemma_paths_view(files@);
    }
    r
}

/// No effect is asked twice: the effects read as a map from name to value.
pub proof fn lemma_effect_names_distinct(s: ImageSettings)
    ensures
        image_effects(s).map_values(|p: (Seq<char>, Seq<char>)| p.0).no_duplicates(),
{
    reveal_strlit("symetrie");
    reveal_strlit("niveaux_de_gris");
    reveal_strlit("lissage");
    reveal_strlit("rotation");
    let keys = image_effects(s).map_values(|p: (Seq<char>, Seq<char>)| p.0);
    let all = seq!["symetrie"@, "niveaux_de_gris"@, "lissage"@, "rotation"@];
    assert(all[0].len() == 8 && all[1].len() == 15 && all[2].len() == 7 && all[3].len() == 8);
    assert(all[0][0] != all[3][0]);
    assert forall|i: int, j: int| 0 <= i < keys.len() && 0 <= j < keys.len() && i != j implies keys[i]
        != keys[j] by {
        assert(keys.len() <= 4);
    }
}


/// Whether `p` is one of the effects that settings `s` can ask: mirroring,
/// greyscale or smoothing with no value, or rotation by `s.rotate` degrees.
pub open spec fn is_named_effect(p: (Seq<char>, Seq<char>), s: ImageSettings) -> bool {
    ||| p == ("symetrie"@, Seq::<char>::empty())
    ||| p == ("niveaux_de_gris"@, Seq::<char>::empty())
    ||| p == ("lissage"@, Seq::<char>::empty())
    ||| p == ("rotation"@, int_decimal(s.rotate as int))
}

proof fn lemma_effect_if_contains(on: bool, key: Seq<char>, value: Seq<char>, x: (Seq<char>, Seq<char>))
    ensures
        effect_if(on, key, value).contains(x) <==> (on && x == (key, value)),
        effect_if(on, key, value).len() <= 1,
        forall|i: int| 0 <= i < effect_if(on, key, value).len() ==> effect_if(on, key, value)[i] == (key, value),
{
    if on {
        assert(effect_if(on, key, value)[0] == (key, value));
    }
}

proof fn lemma_concat_contains<A>(a: Seq<A>, b: Seq<A>, x: A)
    ensures
        (a + b).contains(x) <==> (a.contains(x) || b.contains(x)),
{
    if (a + b).contains(x) {
        let i = choose|i: int| 0 <= i < (a + b).len() && (a + b)[i] == x;
        if i < a.len() {
            assert(a[i] == x);
        } else {
            assert(b[i - a.len()] == x);
        }
    }
    if a.contains(x) {
        let i = choose|i: int| 0 <= i < a.len() && a[i] == x;
        assert((a + b)[i] == x);
    }
    if b.contains(x) {
        let i = choose|i: int| 0 <= i < b.len() && b[i] == x;
        assert((a + b)[a.len() + i] == x);
    }
}

/// Each effect is asked exactly when its own setting is on, whatever the other
/// settings are: mirroring with `h_flip`, greyscale with `greyscale`, smoothing
/// with `smoothing`, and rotation, by the decimal degrees, when `rotate` is not
/// zero. Nothing else is asked.
pub proof fn lemma_effects_follow_settings(s: ImageSettings)
    ensures
        image_effects(s).contains(("symetrie"@, Seq::<char>::empty())) <==> s.h_flip,
        image_effects(s).contains(("niveaux_de_gris"@, Seq::<char>::empty())) <==> s.greyscale,
        image_effects(s).contains(("lissage"@, Seq::<char>::empty())) <==> s.smoothing,
        image_effects(s).contains(("rotation"@, int_decimal(s.rotate as int))) <==> s.rotate != 0,
        forall|i: int|
            0 <= i < image_effects(s).len() ==> is_named_effect(#[trigger] image_effects(s)[i], s),
{
    reveal_strlit("symetrie");
    reveal_strlit("niveaux_de_gris");
    reveal_strlit("lissage");
    reveal_strlit("rotation");
    let e: Seq<char> = Seq::empty();
    let a = effect_if(s.h_flip, "symetrie"@, e);
    let b = effect_if(s.greyscale, "niveaux_de_gris"@, e);
    let c = effect_if(s.smoothing, "lissage"@, e);
    let d = effect_if(s.rotate != 0, "rotation"@, int_decimal(s.rotate as int));
    assert(image_effects(s) == a + b + c + d);
    assert("symetrie"@ != "niveaux_de_gris"@ && "symetrie"@ != "lissage"@ && "symetrie"@
        != "rotation"@) by {
        assert("symetrie"@.len() != "niveaux_de_gris"@.len());
        assert("symetrie"@.len() != "lissage"@.len());
        assert("symetrie"@[0] != "rotation"@[0]);
    }
    assert("niveaux_de_gris"@ != "lissage"@ && "niveaux_de_gris"@ != "rotation"@ && "lissage"@
        != "rotation"@) by {
        assert("niveaux_de_gris"@.len() != "lissage"@.len());
        assert("niveaux_de_gris"@.len() != "rotation"@.len());
        assert("lissage"@.len() != "rotation"@.len());
    }
    let xs = seq![
        ("symetrie"@, e),
        ("niveaux_de_gris"@, e),
        ("lissage"@, e),
        ("rotation"@, int_decimal(s.rotate as int)),
    ];
    assert forall|k: int| 0 <= k < 4 implies (image_effects(s).contains(#[trigger] xs[k]) <==> (
    a.contains(xs[k]) || b.contains(xs[k]) || c.contains(xs[k]) || d.contains(xs[k]))) by {
        lemma_concat_contains(a + b + c, d, xs[k]);
        lemma_concat_contains(a + b, c, xs[k]);
        lemma_concat_contains(a, b, xs[k]);
        lemma_effect_if_contains(s.h_flip, "symetrie"@, e, xs[k]);
        lemma_effect_if_contains(s.greyscale, "niveaux_de_gris"@, e, xs[k]);
        lemma_effect_if_contains(s.smoothing, "lissage"@, e, xs[k]);
        lemma_effect_if_contains(s.rotate != 0, "rotation"@, int_decimal(s.rotate as int), xs[k]);
    }
    assert(xs[0] == ("symetrie"@, e));
    assert(xs[1] == ("niveaux_de_gris"@, e));
    assert(xs[2] == ("lissage"@, e));
    assert(xs[3] == ("rotation"@, int_decimal(s.rotate as int)));
    lemma_effect_if_contains(s.h_flip, "symetrie"@, e, xs[0]);
    lemma_effect_if_contains(s.greyscale, "niveaux_de_gris"@, e, xs[0]);
    lemma_effect_if_contains(s.smoothing, "lissage"@, e, xs[0]);
    lemma_effect_if_contains(s.rotate != 0, "rotation"@, int_decimal(s.rotate as int), xs[0]);
    lemma_effect_if_contains(s.h_flip, "symetrie"@, e, xs[1]);
    lemma_effect_if_contains(s.greyscale, "niveaux_de_gris"@, e, xs[1]);
    lemma_effect_if_contains(s.smoothing, "lissage"@, e, xs[1]);
    lemma_effect_if_contains(s.rotate != 0, "rotation"@, int_decimal(s.rotate as int), xs[1]);
    lemma_effect_if_contains(s.h_flip, "symetrie"@, e, xs[2]);
    lemma_effect_if_contains(s.greyscale, "niveaux_de_gris"@, e, xs[2]);
    lemma_effect_if_contains(s.smoothing, "lissage"@, e, xs[2]);
    lemma_effect_if_contains(s.rotate != 0, "rotation"@, int_decimal(s.rotate as int), xs[2]);
    lemma_effect_if_contains(s.h_flip, "symetrie"@, e, xs[3]);
    lemma_effect_if_contains(s.greyscale, "niveaux_de_gris"@, e, xs[3]);
    lemma_effect_if_contains(s.smoothing, "lissage"@, e, xs[3]);
    lemma_effect_if_contains(s.rotate != 0, "rotation"@, int_decimal(s.rotate as int), xs[3]);
    assert forall|i: int|
        0 <= i < image_effects(s).len() implies is_named_effect(#[trigger] image_effects(s)[i], s) by {
        let p = image_effects(s)[i];
        assert((a + b + c + d).contains(p));
        lemma_concat_contains(a + b + c, d, p);
        lemma_concat_contains(a + b, c, p);
        lemma_concat_contains(a, b, p);
        lemma_effect_if_contains(s.h_flip, "symetrie"@, e, p);
        lemma_effect_if_contains(s.greyscale, "niveaux_de_gris"@, e, p);
        lemma_effect_if_contains(s.smoothing, "lissage"@, e, p);
        lemma_effect_if_contains(s.rotate != 0, "rotation"@, int_decimal(s.rotate as int), p);
    }
}

/// Images are converted with the settings given, as they are: the effects
/// they ask and a quality of 15 when compressing, 85 otherwise; with no
/// settings, with no effect at quality 85.
pub proof fn lemma_image_plan_follows_settings(c: Conversion, settings: Option<ImageSettings>)
    requires
        conversion_matches(c, Format::Image, settings),
    ensures
        match settings {
            Some(s) => c matches Conversion::Image { effects, quality } && pairs_view(effects@)
                == image_effects(s) && quality == (if s.compress {
                15i16
            } else {
                85i16
            }),
            None => c matches Conversion::Image { effects, quality } && effects@.len() == 0
                && quality == 85,
        },
{
    lemma_effects_follow_settings(no_effects());
    if let Conversion::Image { effects, quality } = c {
        if settings is None {
            assert(pairs_view(effects@).len() == image_effects(no_effects()).len());
            assert(image_effects(no_effects()) =~= Seq::empty());
        }
    }
}

/// Audio files are converted as audio, video files as video, and files of
/// unknown kind are skipped, whatever the image settings hold.
pub proof fn lemma_other_kinds_ignore_settings(c: Conversion, settings: Option<ImageSettings>)
    ensures
        conversion_matches(c, Format::Audio, settings) ==> c is Audio,
        conversion_matches(c, Format::Video, settings) ==> c is Video,
        conversion_matches(c, Format::Unknown, settings) ==> c is Skip,
{
}

/// The paths of the files are one per file, in order: the `i`th is the path
/// of the `i`th file.
pub proof fn lemma_paths_view(files: Seq<FileEntry>)
    ensures
        paths_view(files).len() == files.len(),
        forall|i: int| 0 <= i < files.len() ==> #[trigger] paths_view(files)[i] == files[i].path@,
{
}

} // verus!
