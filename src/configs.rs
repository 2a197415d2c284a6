use vstd::prelude::*;

verus! {

/// One category of release notes, identified by the file extension that
/// tags its fragment files.
#[derive(Clone, Debug, PartialEq, Eq, Hash)]
pub struct NoteVariant {
    /// The extension (e.g. .breaking) to identify this variant of notes.
    pub extension: String,
    /// A description of this variant.
    pub name: String,
    /// Whether the content of this variant should be included in the release notes.
    pub show_content: bool,
}

impl NoteVariant {
    pub fn new(extension: &str, name: &str, show_content: bool) -> (r: Self)
        ensures
            r.extension@ == extension@,
            r.name@ == name@,
            r.show_content == show_content,
    {
        NoteVariant { extension: extension.to_owned(), name: name.to_owned(), show_content }
    }
}

/// The settings of one project: where its fragments live, where the notes
/// go, the templates of its headings and its note variants, in output order.
#[derive(Clone, Debug, PartialEq)]
pub struct Configuration {
    /// The directory (relative to the configuration file) in which release notes are stored.
    pub directory: String,
    /// The name of the release notes file.
    pub filename: String,
    /// The format string used to generate the title line of each release note.
    pub title_format: String,
    /// The format string used to display next to the ticket name.
    pub issue_format: String,
    /// A list of release note variants.
    pub variant: Vec<NoteVariant>,
}

impl Configuration {
    pub fn new(
        directory: &str,
        filename: &str,
        title_format: &str,
        issue_format: &str,
        variants: Vec<NoteVariant>,
    ) -> (r: Self)
        ensures
            r.directory@ == directory@,
            r.filename@ == filename@,
            r.title_format@ == title_format@,
            r.issue_format@ == issue_format@,
            r.variant@ == variants@,
    {
        Configuration {
            directory: directory.to_owned(),
            filename: filename.to_owned(),
            title_format: title_format.to_owned(),
            issue_format: issue_format.to_owned(),
            variant: variants,
        }
    }
}

} // verus!
