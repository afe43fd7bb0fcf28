use vstd::prelude::*;

use crate::text::{list_contains, strings_view, texts_view, to_strings};

verus! {

/// The extensions of image files, in the order they are offered.
pub open spec fn image_extensions() -> Seq<Seq<char>> {
    seq!["jpeg"@, "png"@, "jpg"@, "webp"@, "jfif"@]
}

/// The extensions of audio files, in the order they are offered.
pub open spec fn audio_extensions() -> Seq<Seq<char>> {
    seq!["mp3"@, "wav"@, "ogg"@]
}

/// The extensions of video files, in the order they are offered.
pub open spec fn video_extensions() -> Seq<Seq<char>> {
    seq!["mp4"@, "mkv"@, "mov"@, "avi"@]
}

/// Every extension that is recognised, in the order it is offered when no
/// kind of file has been chosen yet.
pub open spec fn all_extensions() -> Seq<Seq<char>> {
    seq![
        "jpeg"@, "jfif"@, "png"@, "jpg"@, "webp"@, "mp3"@, "wav"@, "ogg"@, "mp4"@, "mkv"@,
        "mov"@, "avi"@,
    ]
}

/// The kind of media that a file holds; `Unknown` where no kind is known.
#[derive(Debug, PartialEq, Eq, Structural)]
pub enum Format {
    Image,
    Audio,
    Video,
    Unknown,
}

/// The kind of file that an extension denotes: the first list that holds it,
/// or `Format::Unknown` where no list does.
pub open spec fn format_of(extension: Seq<char>) -> Format {
    if image_extensions().contains(extension) {
        Format::Image
    } else if audio_extensions().contains(extension) {
        Format::Audio
    } else if video_extensions().contains(extension) {
        Format::Video
    } else {
        Format::Unknown
    }
}

impl Format {
    /// The extensions offered for this kind of file; for `Format::Unknown`, every
    /// recognised one.
    pub open spec fn extensions(self) -> Seq<Seq<char>> {
        match self {
            Format::Image => image_extensions(),
            Format::Audio => audio_extensions(),
            Format::Video => video_extensions(),
            Format::Unknown => all_extensions(),
        }
    }

    /// The name of the file-dialog filter for this kind of file.
    pub open spec fn filter_name(self) -> Seq<char> {
        match self {
            Format::Image => "image"@,
            Format::Audio => "audio"@,
            Format::Video => "video"@,
            Format::Unknown => "multimedia"@,
        }
    }

    /// The marker shown before the kind of file on buttons.
    pub open spec fn marker(self) -> Seq<char> {
        match self {
            Format::Image => "🎨 "@,
            Format::Audio => "🎧 "@,
            Format::Video => "🎥 "@,
            Format::Unknown => "  "@,
        }
    }

    /// The kind of file that `extension` denotes.
    pub fn from_extension(extension: String) -> (r: Self)
        ensures
            r == format_of(extension@),
    {
        if list_contains(&image_list(), extension.as_str()) {
            return Format::Image;
        }
        if list_contains(&audio_list(), extension.as_str()) {
            return Format::Audio;
        }
        if list_contains(&video_list(), extension.as_str()) {
            return Format::Video;
        }
        Format::Unknown
    }

    /// The extensions offered for this kind of file, in order.
    pub fn get_extensions(&self) -> (r: Vec<String>)
        ensures
            strings_view(r@) == self.extensions(),
    {
        match self {
            Format::Image => to_strings(&image_list()),
            Format::Audio => to_strings(&audio_list()),
            Format::Video => to_strings(&video_list()),
            Format::Unknown => to_strings(&all_list()),
        }
    }

    /// The name of the file-dialog filter for this kind of file.
    pub fn to_filter(&self) -> (r: String)
        ensures
            r@ == self.filter_name(),
    {
        match self {
            Format::Image => String::from_str("image"),
            Format::Audio => String::from_str("audio"),
            Format::Video => String::from_str("video"),
            Format::Unknown => String::from_str("multimedia"),
        }
    }

    /// The marker shown before the kind of file on buttons.
    pub fn display(&self) -> (r: String)
        ensures
            r@ == self.marker(),
    {
        match self {
            Format::Image => String::from_str("🎨 "),
            Format::Audio => String::from_str("🎧 "),
            Format::Video => String::from_str("🎥 "),
            Format::Unknown => String::from_str("  "),
        }
    }

    /// A copy of this kind.
    pub fn clone(&self) -> (r: Self)
        ensures
            r == *self,
    {
        match self {
            Format::Image => Format::Image,
            Format::Audio => Format::Audio,
            Format::Video => Format::Video,
            Format::Unknown => Format::Unknown,
        }
    }
}

fn image_list() -> (r: Vec<&'static str>)
    ensures
        texts_view(r@) == image_extensions(),
{
    let mut r: Vec<&'static str> = Vec::new();
    r.push("jpeg");
    r.push("png");
    r.push("jpg");
    r.push("webp");
    r.push("jfif");
    assert(texts_view(r@) =~= image_extensions());
    r
}

fn audio_list() -> (r: Vec<&'static str>)
    ensures
        texts_view(r@) == audio_extensions(),
{
    let mut r: Vec<&'static str> = Vec::new();
    r.push("mp3");
    r.push("wav");
    r.push("ogg");
    assert(texts_view(r@) =~= audio_extensions());
    r
}

fn video_list() -> (r: Vec<&'static str>)
    ensures
        texts_view(r@) == video_extensions(),
{
    let mut r: Vec<&'static str> = Vec::new();
    r.push("mp4");
    r.push("mkv");
    r.push("mov");
    r.push("avi");
    assert(texts_view(r@) =~= video_extensions());
    r
}

fn all_list() -> (r: Vec<&'static str>)
    ensures
        texts_view(r@) == all_extensions(),
{
    let mut r: Vec<&'static str> = Vec::new();
    r.push("jpeg");
    r.push("jfif");
    r.push("png");
    r.push("jpg");
    r.push("webp");
    r.push("mp3");
    r.push("wav");
    r.push("ogg");
    r.push("mp4");
    r.push("mkv");
    r.push("mov");
    r.push("avi");
    assert(texts_view(r@) =~= all_extensions());
    r
}


proof fn reveal_extension_texts()
    ensures
        "jpeg"@ =~= seq!['j', 'p', 'e', 'g'],
        "png"@ =~= seq!['p', 'n', 'g'],
        "jpg"@ =~= seq!['j', 'p', 'g'],
        "webp"@ =~= seq!['w', 'e', 'b', 'p'],
        "jfif"@ =~= seq!['j', 'f', 'i', 'f'],
        "mp3"@ =~= seq!['m', 'p', '3'],
        "wav"@ =~= seq!['w', 'a', 'v'],
        "ogg"@ =~= seq!['o', 'g', 'g'],
        "mp4"@ =~= seq!['m', 'p', '4'],
        "mkv"@ =~= seq!['m', 'k', 'v'],
        "mov"@ =~= seq!['m', 'o', 'v'],
        "avi"@ =~= seq!['a', 'v', 'i'],
{
    reveal_strlit("jpeg");
    reveal_strlit("png");
    reveal_strlit("jpg");
    reveal_strlit("webp");
    reveal_strlit("jfif");
    reveal_strlit("mp3");
    reveal_strlit("wav");
    reveal_strlit("ogg");
    reveal_strlit("mp4");
    reveal_strlit("mkv");
    reveal_strlit("mov");
    reveal_strlit("avi");
}

proof fn lemma_image_members(e: Seq<char>)
    ensures
        image_extensions().contains(e) <==> (e == "jpeg"@ || e == "png"@ || e == "jpg"@ || e
            == "webp"@ || e == "jfif"@),
{
    let s = image_extensions();
    if s.contains(e) {
        let i = choose|i: int| 0 <= i < s.len() && s[i] == e;
        assert(i == 0 || i == 1 || i == 2 || i == 3 || i == 4);
    }
    if e == "jpeg"@ { assert(s[0] == e); }
    if e == "png"@ { assert(s[1] == e); }
    if e == "jpg"@ { assert(s[2] == e); }
    if e == "webp"@ { assert(s[3] == e); }
    if e == "jfif"@ { assert(s[4] == e); }
}

proof fn lemma_audio_members(e: Seq<char>)
    ensures
        audio_extensions().contains(e) <==> (e == "mp3"@ || e == "wav"@ || e == "ogg"@),
{
    let s = audio_extensions();
    if s.contains(e) {
        let i = choose|i: int| 0 <= i < s.len() && s[i] == e;
        assert(i == 0 || i == 1 || i == 2);
    }
    if e == "mp3"@ { assert(s[0] == e); }
    if e == "wav"@ { assert(s[1] == e); }
    if e == "ogg"@ { assert(s[2] == e); }
}

proof fn lemma_video_members(e: Seq<char>)
    ensures
        video_extensions().contains(e) <==> (e == "mp4"@ || e == "mkv"@ || e == "mov"@ || e
            == "avi"@),
{
    let s = video_extensions();
    if s.contains(e) {
        let i = choose|i: int| 0 <= i < s.len() && s[i] == e;
        assert(i == 0 || i == 1 || i == 2 || i == 3);
    }
    if e == "mp4"@ { assert(s[0] == e); }
    if e == "mkv"@ { assert(s[1] == e); }
    if e == "mov"@ { assert(s[2] == e); }
    if e == "avi"@ { assert(s[3] == e); }
}

proof fn lemma_all_members(e: Seq<char>)
    ensures
        all_extensions().contains(e) <==> (image_extensions().contains(e)
            || audio_extensions().contains(e) || video_extensions().contains(e)),
{
    lemma_image_members(e);
    lemma_audio_members(e);
    lemma_video_members(e);
    let s = all_extensions();
    if s.contains(e) {
        let i = choose|i: int| 0 <= i < s.len() && s[i] == e;
        assert(0 <= i < 12);
        assert(i == 0 || i == 1 || i == 2 || i == 3 || i == 4 || i == 5 || i == 6 || i == 7
            || i == 8 || i == 9 || i == 10 || i == 11);
    }
    if e == "jpeg"@ { assert(s[0] == e); }
    if e == "jfif"@ { assert(s[1] == e); }
    if e == "png"@ { assert(s[2] == e); }
    if e == "jpg"@ { assert(s[3] == e); }
    if e == "webp"@ { assert(s[4] == e); }
    if e == "mp3"@ { assert(s[5] == e); }
    if e == "wav"@ { assert(s[6] == e); }
    if e == "ogg"@ { assert(s[7] == e); }
    if e == "mp4"@ { assert(s[8] == e); }
    if e == "mkv"@ { assert(s[9] == e); }
    if e == "mov"@ { assert(s[10] == e); }
    if e == "avi"@ { assert(s[11] == e); }
}

/// Every extension offered for a kind of file is recognised as that kind:
/// the image, audio and video lists share no extension.
pub proof fn lemma_offered_extension_is_recognised(f: Format, e: Seq<char>)
    requires
        f != Format::Unknown,
        f.extensions().contains(e),
    ensures
        format_of(e) == f,
{
    reveal_extension_texts();
    lemma_image_members(e);
    lemma_audio_members(e);
    lemma_video_members(e);
}

/// An extension is recognised exactly when it is among those offered while
/// the kind of file is unknown.
pub proof fn lemma_recognised_iff_offered(e: Seq<char>)
    ensures
        (format_of(e) != Format::Unknown) <==> Format::Unknown.extensions().contains(e),
{
    lemma_all_members(e);
}

/// No list of offered extensions names an extension twice.
pub proof fn lemma_offered_extensions_distinct(f: Format)
    ensures
        f.extensions().no_duplicates(),
{
    reveal_extension_texts();
    let s = f.extensions();
    assert forall|i: int, j: int| 0 <= i < s.len() && 0 <= j < s.len() && i != j implies s[i]
        != s[j] by {
        if s[i] == s[j] {
            assert(s[i].len() == s[j].len());
        }
    }
}


/// The kind that an extension is recognised as offers that extension again.
pub proof fn lemma_recognised_kind_offers_extension(e: Seq<char>)
    ensures
        format_of(e) != Format::Unknown ==> format_of(e).extensions().contains(e),
{
}

} // verus!
