use vstd::prelude::*;

use crate::conversion::{conversion_matches, input_paths, paths_view, plan_conversion, ConversionJob};
use crate::files::{no_effects, FileEntry, ImageSettings};
use crate::format::{format_of, Format};
use crate::text::strings_view;

verus! {

/// The characters of an optional text.
pub open spec fn text_option_view(o: Option<String>) -> Option<Seq<char>> {
    match o {
        Some(s) => Some(s@),
        None => None,
    }
}

/// What the user has opened and chosen so far.
pub struct ConverterState {
    /// The files to convert, in the order they were opened.
    pub input_files: Vec<FileEntry>,
    /// Where converted files go, once chosen.
    pub output_folder: Option<String>,
    /// The kind of the files, decided by the first file whose name was read.
    pub file_type: Format,
    /// The extension to convert to; empty until one is chosen.
    pub selected_extension: String,
    /// The effects for images, once the image settings have been shown.
    pub image_settings: Option<ImageSettings>,
}

impl ConverterState {
    /// Nothing opened and nothing chosen.
    pub open spec fn is_fresh(&self) -> bool {
        &&& self.input_files@.len() == 0
        &&& self.output_folder is None
        &&& self.file_type == Format::Unknown
        &&& self.selected_extension@.len() == 0
        &&& self.image_settings is None
    }

    /// The state after the choices that depend on the kind of file are cleared:
    /// the kind, the extension chosen and the image settings.
    pub open spec fn cleared(old_state: ConverterState, new_state: ConverterState) -> bool {
        &&& new_state.input_files@ == old_state.input_files@
        &&& text_option_view(new_state.output_folder) == text_option_view(old_state.output_folder)
        &&& new_state.file_type == Format::Unknown
        &&& new_state.selected_extension@.len() == 0
        &&& new_state.image_settings is None
    }

    /// A state with nothing opened and nothing chosen.
    pub fn new() -> (r: Self)
        ensures
            r.is_fresh(),
    {
        ConverterState {
            input_files: Vec::new(),
            output_folder: None,
            file_type: Format::Unknown,
            selected_extension: String::new(),
            image_settings: None,
        }
    }

    /// Chooses `path` as the folder for converted files.
    pub fn select_folder(&mut self, path: String)
        ensures
            text_option_view(final(self).output_folder) == Some(path@),
            final(self).input_files@ == old(self).input_files@,
            final(self).file_type == old(self).file_type,
            final(self).selected_extension@ == old(self).selected_extension@,
            final(self).image_settings == old(self).image_settings,
    {
        self.output_folder = Some(path);
    }

    /// Forgets the kind of file, the extension chosen and the image settings.
    pub fn reset(&mut self)
        ensures
            Self::cleared(*old(self), *final(self)),
    {
        self.file_type = Format::Unknown;
        self.selected_extension = String::new();
        self.image_settings = None;
    }

    /// Adds the file opened from `path`. `parts` is what was read of the path:
    /// its folder, its name and its extension, in this order, or nothing where
    /// it could not be read. A folder read this way becomes the output folder
    /// if none is chosen, and the extension decides the kind of file if none is
    /// known yet.
    pub fn open_file(&mut self, path: String, parts: Option<Vec<String>>)
        requires
            parts matches Some(p) ==> p@.len() >= 3,
        ensures
            final(self).input_files@.len() == old(self).input_files@.len() + 1,
            forall|i: int|
                0 <= i < old(self).input_files@.len() ==> final(self).input_files@[i]
                    == old(self).input_files@[i],
            ({
                let added = final(self).input_files@.last();
                &&& added.path@ == path@
                &&& match parts {
                    Some(p) => added.name@ == p@[1]@ && added.extension@ == p@[2]@,
                    None => added.name@ == "none"@ && added.extension@.len() == 0,
                }
            }),
            text_option_view(final(self).output_folder) == match parts {
                Some(p) => if old(self).output_folder is None {
                    Some(p@[0]@)
                } else {
                    text_option_view(old(self).output_folder)
                },
                None => text_option_view(old(self).output_folder),
            },
            final(self).file_type == match parts {
                Some(p) => if old(self).file_type == Format::Unknown {
                    format_of(p@[2]@)
                } else {
                    old(self).file_type
                },
                None => old(self).file_type,
            },
            final(self).selected_extension@ == old(self).selected_extension@,
            final(self).image_settings == old(self).image_settings,
    {
        let mut entry = FileEntry::default();
        match parts {
            Some(p) => {
                if self.output_folder.is_none() {
                    self.select_folder(p[0].clone());
                }
                entry.name = p[1].clone();
                entry.extension = p[2].clone();
                if self.file_type == Format::Unknown {
                    self.file_type = Format::from_extension(p[2].clone());
                }
            },
            None => {},
        }
        entry.path = path;
        self.input_files.push(entry);
    }

    /// Removes the file at `index`; once no file is left, forgets the kind of
    /// file, the extension chosen and the image settings.
    pub fn remove_file(&mut self, index: usize)
        requires
            index < old(self).input_files@.len(),
        ensures
            final(self).input_files@ == old(self).input_files@.remove(index as int),
            final(self).input_files@.len() == 0 ==> Self::cleared(
                ConverterState { input_files: final(self).input_files, ..*old(self) },
                *final(self),
            ),
            final(self).input_files@.len() != 0 ==> {
                &&& text_option_view(final(self).output_folder) == text_option_view(
                    old(self).output_folder,
                )
                &&& final(self).file_type == old(self).file_type
                &&& final(self).selected_extension@ == old(self).selected_extension@
                &&& final(self).image_settings == old(self).image_settings
            },
    {
        self.input_files.remove(index);
        if self.input_files.len() == 0 {
            self.reset();
        }
    }

    /// Chooses `extension` as the extension to convert to.
    pub fn select_extension(&mut self, extension: String)
        ensures
            final(self).selected_extension@ == extension@,
            final(self).input_files@ == old(self).input_files@,
            text_option_view(final(self).output_folder) == text_option_view(old(self).output_folder),
            final(self).file_type == old(self).file_type,
            final(self).image_settings == old(self).image_settings,
    {
        self.selected_extension = extension;
    }

    /// Gives the image settings their defaults when images are being converted
    /// and no settings exist yet.
    pub fn ensure_image_settings(&mut self)
        ensures
            final(self).image_settings == if old(self).file_type == Format::Image
                && old(self).image_settings is None {
                Some(no_effects())
            } else {
                old(self).image_settings
            },
            final(self).input_files@ == old(self).input_files@,
            text_option_view(final(self).output_folder) == text_option_view(old(self).output_folder),
            final(self).file_type == old(self).file_type,
            final(self).selected_extension@ == old(self).selected_extension@,
    {
        if self.file_type == Format::Image && self.image_settings.is_none() {
            self.image_settings = Some(ImageSettings::default());
        }
    }

    /// The text of the output-folder button: the folder, or a hint that none
    /// is chosen.
    pub fn folder_label(&self) -> (r: String)
        ensures
            r@ == match self.output_folder {
                Some(f) => f@,
                None => "No Folder Selected"@,
            },
    {
        match &self.output_folder {
            Some(f) => f.clone(),
            None => String::from_str("No Folder Selected"),
        }
    }

    /// Asks for the conversion of the opened files. Nothing happens while no
    /// extension is chosen. Otherwise the opened files, the kind of file and
    /// the extension chosen are forgotten, and a job comes back when an output
    /// folder is chosen: the paths of the files, the folder, the extension,
    /// and how files of their kind are converted.
    pub fn convert(&mut self) -> (r: Option<ConversionJob>)
        ensures
            old(self).selected_extension@.len() == 0 ==> r is None && *final(self) == *old(self),
            old(self).selected_extension@.len() != 0 ==> {
                &&& final(self).input_files@.len() == 0
                &&& final(self).file_type == Format::Unknown
                &&& final(self).selected_extension@.len() == 0
                &&& text_option_view(final(self).output_folder) == text_option_view(
                    old(self).output_folder,
                )
                &&& final(self).image_settings == old(self).image_settings
                &&& (r is Some <==> old(self).output_folder is Some)
            },
            r matches Some(job) ==> {
                &&& strings_view(job.inputs@) == paths_view(old(self).input_files@)
                &&& job.inputs@.len() == old(self).input_files@.len()
                &&& forall|i: int|
                    0 <= i < job.inputs@.len() ==> #[trigger] job.inputs@[i]@
                        == old(self).input_files@[i].path@
                &&& text_option_view(old(self).output_folder) == Some(job.output_folder@)
                &&& job.output_format@ == old(self).selected_extension@
                &&& conversion_matches(job.conversion, old(self).file_type, old(self).image_settings)
            },
    {
        if self.selected_extension.as_str().is_empty() {
            return None;
        }
        let job = match &self.output_folder {
            Some(folder) => Some(
                ConversionJob {
                    inputs: input_paths(&self.input_files),
                    output_folder: folder.clone(),
                    output_format: self.selected_extension.clone(),
                    conversion: plan_conversion(&self.file_type, &self.image_settings),
                },
            ),
            None => None,
        };
        self.input_files = Vec::new();
        self.file_type = Format::Unknown;
        self.selected_extension = String::new();
        job
    }
}

} // verus!
