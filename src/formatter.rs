use vstd::prelude::*;
use vstd::string::StringExecFns;

use crate::configs::NoteVariant;
use crate::text::{byte_len, lines_view, repeat_char, repeated};

verus! {

/// The output dialects of the release notes.
#[derive(Debug, Copy, Clone, PartialEq, Eq, Hash, Structural)]
pub enum NoteFormatter {
    /// Plain text in the style of reStructuredText: headings are underlined.
    Text,
    /// Markdown: headings are prefixed with `#` marks.
    Markdown,
}

/// A heading and the blank line after it: the text, then, in plain text, a
/// rule of `mark` as long in bytes as the text, or, in Markdown, the text
/// behind `level` and a space.
pub open spec fn heading_lines(
    formatter: NoteFormatter,
    text: Seq<char>,
    mark: char,
    level: Seq<char>,
) -> Seq<Seq<char>> {
    match formatter {
        NoteFormatter::Text => seq![text, repeat_char(mark, byte_len(text) as nat), Seq::empty()],
        NoteFormatter::Markdown => seq![level + seq![' '] + text, Seq::empty()],
    }
}

/// The line of one release note: `- ticket: description issue`, or, where
/// the variant hides its content, `- ticket: issue`.
pub open spec fn note_line(
    show_content: bool,
    ticket: Seq<char>,
    description: Seq<char>,
    issue: Seq<char>,
) -> Seq<char> {
    seq!['-', ' '] + ticket + seq![':', ' '] + (if show_content {
        description + seq![' ']
    } else {
        Seq::empty()
    }) + issue
}

impl NoteFormatter {
    /// The lines that open a document with the given title.
    pub open spec fn title_lines(self, title: Seq<char>) -> Seq<Seq<char>> {
        heading_lines(self, title, '=', seq!['#'])
    }

    /// The lines that open the section of a variant with the given name.
    pub open spec fn header_lines(self, name: Seq<char>) -> Seq<Seq<char>> {
        heading_lines(self, name, '-', seq!['#', '#'])
    }

    pub fn title(self, title: &str) -> (r: Vec<String>)
        ensures
            lines_view(r@) == self.title_lines(title@),
    {
        let r = match self {
            NoteFormatter::Text => {
                proof {
                    reveal_strlit("=");
                }
                let title_length = title.len();
                let r = vec![title.to_owned(), repeated("=", title_length), String::new()];
                assert(r@[1]@ == repeat_char('=', byte_len(title@) as nat));
                r
            },
            NoteFormatter::Markdown => {
                proof {
                    reveal_strlit("# ");
                }
                let mut line = "# ".to_owned();
                line.append(title);
                assert(line@ =~= seq!['#'] + seq![' '] + title@);
                vec![line, String::new()]
            },
        };
        assert(lines_view(r@) =~= self.title_lines(title@));
        r
    }

    pub fn variant_header(self, variant: &NoteVariant) -> (r: Vec<String>)
        ensures
            lines_view(r@) == self.header_lines(variant.name@),
    {
        let variant_title = variant.name.as_str();
        let r = match self {
            NoteFormatter::Text => {
                proof {
                    reveal_strlit("-");
                }
                vec![
                    variant_title.to_owned(),
                    repeated("-", variant_title.len()),
                    String::new(),
                ]
            },
            NoteFormatter::Markdown => {
                proof {
                    reveal_strlit("## ");
                }
                let mut line = "## ".to_owned();
                line.append(variant_title);
                assert(line@ =~= seq!['#', '#'] + seq![' '] + variant_title@);
                vec![line, String::new()]
            },
        };
        assert(lines_view(r@) =~= self.header_lines(variant.name@));
        r
    }
}

} // verus!
