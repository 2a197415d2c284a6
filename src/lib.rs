//! Release notes assembled from small note fragments, one per file, each
//! tagged with a category by its file extension.

pub mod compile;
pub mod configs;
pub mod formatter;
pub mod fragments;
pub mod laws;
pub mod text;
pub mod writer;

pub use configs::{Configuration, NoteVariant};
pub use formatter::NoteFormatter;
pub use writer::{NoteWriter, StringWriter};
pub use compile::{compile_release_notes, NoteError};
