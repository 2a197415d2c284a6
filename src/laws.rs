use vstd::prelude::*;

use crate::formatter::{note_line, NoteFormatter};
use crate::text::{byte_len, join_lines, repeat_char};
use crate::writer::{spaced, NoteWriter, StringWriter};

verus! {

/// In plain text a title is underlined with `=` as long in bytes as the
/// title; in Markdown it is the title behind `# `, with no underline.
pub proof fn lemma_title_shapes(title: Seq<char>)
    ensures
        NoteFormatter::Text.title_lines(title)[0] == title,
        NoteFormatter::Text.title_lines(title)[1] == repeat_char('=', byte_len(title) as nat),
        NoteFormatter::Text.title_lines(title)[1].len() == byte_len(title),
        NoteFormatter::Markdown.title_lines(title) == seq![
            seq!['#', ' '] + title,
            Seq::<char>::empty(),
        ],
{
    assert(seq!['#'] + seq![' '] =~= seq!['#', ' ']);
    assert(NoteFormatter::Markdown.title_lines(title) =~= seq![
        seq!['#', ' '] + title,
        Seq::<char>::empty(),
    ]);
}

/// Where a variant hides its content, the line of a note does not depend on
/// the description, and is the ticket and the issue with nothing between
/// but `: `.
pub proof fn lemma_hidden_description(
    ticket: Seq<char>,
    description: Seq<char>,
    other: Seq<char>,
    issue: Seq<char>,
)
    ensures
        note_line(false, ticket, description, issue) == note_line(false, ticket, other, issue),
        note_line(false, ticket, description, issue) == seq!['-', ' '] + ticket + seq![':', ' ']
            + issue,
{
    assert(note_line(false, ticket, description, issue) =~= seq!['-', ' '] + ticket + seq![
        ':',
        ' ',
    ] + issue);
}

/// A writer that has nothing written, as `write` leaves it, writes out the
/// empty string: a second `write` in a row returns nothing.
pub proof fn lemma_write_after_write(writer: StringWriter)
    requires
        writer.written() == Seq::<Seq<char>>::empty(),
    ensures
        join_lines(writer.written()) == Seq::<char>::empty(),
{
}

/// Closing a section on an empty document writes two blank lines, which
/// join to one newline, where a single one would join to nothing.
pub proof fn lemma_footer_on_empty()
    ensures
        spaced(Seq::<Seq<char>>::empty(), 1) == seq![Seq::<char>::empty(), Seq::<char>::empty()],
        join_lines(spaced(Seq::<Seq<char>>::empty(), 1)) == seq!['\n'],
{
    let two = spaced(Seq::<Seq<char>>::empty(), 1);
    assert(two =~= seq![Seq::<char>::empty(), Seq::<char>::empty()]);
    assert(two.drop_last() =~= seq![Seq::<char>::empty()]);
    assert(join_lines(two.drop_last()) == Seq::<char>::empty());
    assert(join_lines(two) == join_lines(two.drop_last()) + seq!['\n'] + two.last());
    assert(join_lines(two) =~= seq!['\n']);
}

} // verus!
