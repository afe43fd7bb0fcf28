use vstd::prelude::*;

verus! {

/// A file that the user has opened: its name without extension, its
/// extension, and the path it was opened from.
#[derive(Clone)]
pub struct FileEntry {
    pub name: String,
    pub extension: String,
    pub path: String,
}

impl Default for FileEntry {
    /// An entry named "none" with no extension and no path.
    fn default() -> (r: Self)
        ensures
            r.name@ == "none"@,
            r.extension@ == Seq::<char>::empty(),
            r.path@ == Seq::<char>::empty(),
    {
        FileEntry { name: String::from_str("none"), extension: String::new(), path: String::new() }
    }
}

/// The text shown for a file: its name, a dot, and its extension.
pub open spec fn entry_label(name: Seq<char>, extension: Seq<char>) -> Seq<char> {
    name + "."@ + extension
}

impl FileEntry {
    /// The text shown for this file in the list of opened files.
    pub fn label(&self) -> (r: String)
        ensures
            r@ == entry_label(self.name@, self.extension@),
    {
        let mut r = self.name.clone();
        r.append(".");
        r.append(self.extension.as_str());
        r
    }
}

/// The effects to apply to images, as the user has set them.
#[derive(Clone, Copy, Debug, PartialEq, Eq, Structural)]
pub struct ImageSettings {
    pub compress: bool,
    pub h_flip: bool,
    pub greyscale: bool,
    pub rotate: i16,
    pub smoothing: bool,
}

/// Settings that ask for no effect at all: nothing set, no rotation.
pub open spec fn no_effects() -> ImageSettings {
    ImageSettings { compress: false, h_flip: false, greyscale: false, rotate: 0, smoothing: false }
}

impl Default for ImageSettings {
    /// No effect at all: nothing set, no rotation.
    fn default() -> (r: Self)
        ensures
            r == no_effects(),
    {
        ImageSettings { compress: false, h_flip: false, greyscale: false, rotate: 0, smoothing: false }
    }
}

} // verus!
