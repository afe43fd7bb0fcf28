//! Core logic of a multimedia conversion front end: which file formats are
//! recognised, what the user has opened and chosen, and what a conversion
//! request hands to the converters.

pub mod conversion;
pub mod decimal;
pub mod files;
pub mod format;
pub mod icon;
pub mod state;
pub mod text;

pub use files::{FileEntry, ImageSettings};
pub use format::Format;
pub use icon::load_icon;
