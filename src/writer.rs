use vstd::prelude::*;
use vstd::string::StringExecFns;

use crate::configs::NoteVariant;
use crate::formatter::{note_line, NoteFormatter};
use crate::text::{join_lines, join_with_newlines, lines_view};

verus! {

/// `lines` followed by `n` blank lines, and by one more where `lines` is
/// empty, so that the blank lines still show once the lines are joined.
pub open spec fn spaced(lines: Seq<Seq<char>>, n: nat) -> Seq<Seq<char>> {
    let total = if lines.len() == 0 {
        n + 1
    } else {
        n
    };
    lines + Seq::new(total, |_i: int| Seq::<char>::empty())
}

/// Generates release notes from compiled release note files.
pub trait NoteWriter {
    /// The lines written so far and not yet taken out by `write`.
    spec fn written(&self) -> Seq<Seq<char>>;

    /// The dialect in which the writer renders its lines.
    spec fn dialect(&self) -> NoteFormatter;

    /// Write out a title line.
    fn title(&mut self, title: &str)
        ensures
            final(self).dialect() == old(self).dialect(),
            final(self).written() == old(self).written() + old(self).dialect().title_lines(title@),
    ;

    /// Start an itemized list of release notes for a given variant.
    fn variant_header(&mut self, variant: &NoteVariant)
        ensures
            final(self).dialect() == old(self).dialect(),
            final(self).written() == old(self).written() + old(self).dialect().header_lines(
                variant.name@,
            ),
    ;

    /// Write a single release note.
    fn release_note(&mut self, variant: &NoteVariant, ticket: &str, description: &str, issue: &str)
        ensures
            final(self).dialect() == old(self).dialect(),
            final(self).written() == old(self).written().push(
                note_line(variant.show_content, ticket@, description@, issue@),
            ),
    ;

    /// End the most recently started variant list.
    fn variant_footer(&mut self)
        ensures
            final(self).dialect() == old(self).dialect(),
            final(self).written() == spaced(old(self).written(), 1),
    ;

    /// Write out `lines` many empty lines.
    fn spacing(&mut self, lines: usize)
        ensures
            final(self).dialect() == old(self).dialect(),
            final(self).written() == spaced(old(self).written(), lines as nat),
    ;

    /// Takes the written lines out of the writer, returning them joined by
    /// newlines.
    fn write(&mut self) -> (r: String)
        ensures
            r@ == join_lines(old(self).written()),
            final(self).dialect() == old(self).dialect(),
            final(self).written() == Seq::<Seq<char>>::empty(),
    ;
}

/// A writer that collects its lines in memory.
#[derive(Debug, Clone, PartialEq, Eq)]
pub struct StringWriter {
    lines: Vec<String>,
    formatter: NoteFormatter,
}

impl StringWriter {
    pub fn new(formatter: NoteFormatter) -> (r: Self)
        ensures
            r.written() == Seq::<Seq<char>>::empty(),
            r.dialect() == formatter,
    {
        let r = Self { lines: Vec::new(), formatter };
        assert(r.written() =~= Seq::<Seq<char>>::empty());
        r
    }

    pub fn text() -> (r: Self)
        ensures
            r.written() == Seq::<Seq<char>>::empty(),
            r.dialect() == NoteFormatter::Text,
    {
        Self::new(NoteFormatter::Text)
    }

    pub fn markdown() -> (r: Self)
        ensures
            r.written() == Seq::<Seq<char>>::empty(),
            r.dialect() == NoteFormatter::Markdown,
    {
        Self::new(NoteFormatter::Markdown)
    }

    /// Appends `more` to the written lines.
    fn extend(&mut self, more: Vec<String>)
        ensures
            final(self).formatter == old(self).formatter,
            final(self).written() == old(self).written() + lines_view(more@),
    {
        let ghost added = more@;
        let mut more = more;
        self.lines.append(&mut more);
        assert(self.written() =~= old(self).written() + lines_view(added));
    }
}

impl NoteWriter for StringWriter {
    closed spec fn written(&self) -> Seq<Seq<char>> {
        lines_view(self.lines@)
    }

    closed spec fn dialect(&self) -> NoteFormatter {
        self.formatter
    }

    fn title(&mut self, title: &str) {
        let lines = self.formatter.title(title);
        self.extend(lines);
    }

    fn variant_header(&mut self, variant: &NoteVariant) {
        let lines = self.formatter.variant_header(variant);
        self.extend(lines);
    }

    fn release_note(&mut self, variant: &NoteVariant, ticket: &str, description: &str, issue: &str) {
        proof {
            reveal_strlit("- ");
            reveal_strlit(": ");
            reveal_strlit(" ");
        }
        let mut line = "- ".to_owned();
        line.append(ticket);
        line.append(": ");
        if variant.show_content {
            line.append(description);
            line.append(" ");
        }
        line.append(issue);
        assert(line@ =~= note_line(variant.show_content, ticket@, description@, issue@));
        self.lines.push(line);
        assert(self.written() =~= old(self).written().push(line@));
    }

    fn variant_footer(&mut self) {
        self.spacing(1);
    }

    fn spacing(&mut self, lines: usize) {
        // a blank line on an empty document would vanish once the lines are
        // joined, so one more goes in first
        if self.lines.len() == 0 {
            self.lines.push(String::new());
        }
        let mut i: usize = 0;
        while i < lines
            invariant
                i <= lines,
                self.formatter == old(self).formatter,
                self.written() == spaced(old(self).written(), i as nat),
            decreases lines - i,
        {
            let ghost before = self.lines@;
            let blank = String::new();
            self.lines.push(blank);
            assert(self.lines@ == before.push(blank));
            assert(lines_view(self.lines@) =~= lines_view(before).push(Seq::<char>::empty()));
            assert(self.written() =~= spaced(old(self).written(), (i + 1) as nat));
            i = i + 1;
        }
    }

    fn write(&mut self) -> (r: String) {
        let r = join_with_newlines(&self.lines);
        self.lines = Vec::new();
        assert(self.written() =~= Seq::<Seq<char>>::empty());
        r
    }
}

} // verus!
