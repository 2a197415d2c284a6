use vstd::prelude::*;
use vstd::string::StringExecFns;

use crate::configs::{Configuration, NoteVariant};
use crate::formatter::{note_line, NoteFormatter};
use crate::fragments::pairs_view;
use crate::text::join_lines;
use crate::writer::{NoteWriter, StringWriter};

verus! {

#[verifier::external_type_specification]
#[verifier::external_body]
pub struct ExFmtError(strfmt::FmtError);

/// What `strfmt::strfmt` makes of a template and of variables given as
/// pairs of a name and a value: the text, or `None` for an error.
pub uninterp spec fn template_output(
    template: Seq<char>,
    vars: Seq<(Seq<char>, Seq<char>)>,
) -> Option<Seq<char>>;

/// Relies on strfmt::strfmt: fills each `{name}` of the template with the
/// value of that name, or fails on a malformed template or an unknown name;
/// the outcome depends on the template and the variables alone.
#[verifier::external_body]
fn fill_template(template: &str, vars: &Vec<(String, String)>) -> (r: Result<
    String,
    strfmt::FmtError,
>)
    ensures
        match r {
            Ok(s) => template_output(template@, pairs_view(vars@)) == Some(s@),
            Err(_) => template_output(template@, pairs_view(vars@)) is None,
        },
{
    let map: std::collections::HashMap<String, String> = vars.iter().cloned().collect();
    strfmt::strfmt(template, &map)
}

/// Why release notes could not be compiled.
#[derive(Debug, Clone, Copy, PartialEq, Eq, Structural)]
pub enum NoteError {
    /// The configured `title_format` could not be filled in.
    InvalidTitleFormat,
    /// The configured `issue_format` could not be filled in.
    InvalidIssueFormat,
}

impl NoteError {
    /// A sentence that describes the error.
    pub fn message(self) -> (r: &'static str)
        ensures
            r@ == (match self {
                NoteError::InvalidTitleFormat => "invalid `title_format` given"@,
                NoteError::InvalidIssueFormat => "invalid `issue_format` given"@,
            }),
    {
        match self {
            NoteError::InvalidTitleFormat => "invalid `title_format` given",
            NoteError::InvalidIssueFormat => "invalid `issue_format` given",
        }
    }
}

/// The variables of the title template.
pub open spec fn title_vars(version: Seq<char>, project_date: Seq<char>) -> Seq<
    (Seq<char>, Seq<char>),
> {
    seq![("project_date"@, project_date), ("version"@, version)]
}

/// The variables of the issue template, for the note of the given ticket.
pub open spec fn issue_vars(ticket: Seq<char>) -> Seq<(Seq<char>, Seq<char>)> {
    seq![("issue"@, ticket)]
}

/// The lines of a list of notes, each a pair of a ticket and a description,
/// or `None` where the issue template fails on one of them.
pub open spec fn note_lines(
    show_content: bool,
    issue_format: Seq<char>,
    notes: Seq<(Seq<char>, Seq<char>)>,
) -> Option<Seq<Seq<char>>>
    decreases notes.len(),
{
    if notes.len() == 0 {
        Some(Seq::empty())
    } else {
        match note_lines(show_content, issue_format, notes.drop_last()) {
            Some(lines) => match template_output(issue_format, issue_vars(notes.last().0)) {
                Some(issue) => Some(
                    lines.push(note_line(show_content, notes.last().0, notes.last().1, issue)),
                ),
                None => None,
            },
            None => None,
        }
    }
}

/// The notes of each list, as pairs of characters.
pub open spec fn groups_view(groups: Seq<Vec<(String, String)>>) -> Seq<
    Seq<(Seq<char>, Seq<char>)>,
> {
    groups.map_values(|g: Vec<(String, String)>| pairs_view(g@))
}

/// The notes of the variant of index `k`: none where `groups` has no list
/// for it.
pub open spec fn notes_at(groups: Seq<Seq<(Seq<char>, Seq<char>)>>, k: int) -> Seq<
    (Seq<char>, Seq<char>),
> {
    if 0 <= k < groups.len() {
        groups[k]
    } else {
        Seq::empty()
    }
}

/// The lines of the sections of the first `n` variants, in their order: a
/// section for each variant with notes, made of its header, its notes and
/// one blank line; `None` where the issue template fails on a note.
pub open spec fn body_lines(
    formatter: NoteFormatter,
    variants: Seq<NoteVariant>,
    groups: Seq<Seq<(Seq<char>, Seq<char>)>>,
    issue_format: Seq<char>,
    n: nat,
) -> Option<Seq<Seq<char>>>
    decreases n,
{
    if n == 0 {
        Some(Seq::empty())
    } else {
        let k = n - 1;
        match body_lines(formatter, variants, groups, issue_format, (n - 1) as nat) {
            Some(before) => {
                let notes = notes_at(groups, k);
                if notes.len() == 0 {
                    Some(before)
                } else {
                    match note_lines(variants[k].show_content, issue_format, notes) {
                        Some(lines) => Some(
                            before + formatter.header_lines(variants[k].name@) + lines + seq![
                                Seq::<char>::empty(),
                            ],
                        ),
                        None => None,
                    }
                }
            },
            None => None,
        }
    }
}

/// Writes one section: the header of `variant`, a line for each of its
/// notes, and the footer.
fn write_section(
    writer: &mut StringWriter,
    variant: &NoteVariant,
    issue_format: &str,
    notes: &Vec<(String, String)>,
) -> (r: Result<(), NoteError>)
    requires
        old(writer).written().len() > 0,
    ensures
        final(writer).dialect() == old(writer).dialect(),
        match note_lines(variant.show_content, issue_format@, pairs_view(notes@)) {
            Some(lines) => r is Ok && final(writer).written() == old(writer).written()
                + old(writer).dialect().header_lines(variant.name@) + lines + seq![
                Seq::<char>::empty(),
            ],
            None => r == Err::<(), NoteError>(NoteError::InvalidIssueFormat),
        },
{
    proof {
        reveal_strlit("issue");
    }
    writer.variant_header(variant);
    let ghost start = writer.written();
    let mut j: usize = 0;
    while j < notes.len()
        invariant
            j <= notes@.len(),
            writer.dialect() == old(writer).dialect(),
            start == old(writer).written() + old(writer).dialect().header_lines(variant.name@),
            match note_lines(
                variant.show_content,
                issue_format@,
                pairs_view(notes@.subrange(0, j as int)),
            ) {
                Some(lines) => writer.written() == start + lines,
                None => false,
            },
        decreases notes.len() - j,
    {
        let ghost seen = pairs_view(notes@.subrange(0, j as int));
        let ghost now = pairs_view(notes@.subrange(0, j + 1));
        assert(now.drop_last() =~= seen);
        assert(now.last() == (notes@[j as int].0@, notes@[j as int].1@));
        let ticket = &notes[j].0;
        let vars = vec![("issue".to_owned(), ticket.clone())];
        assert(pairs_view(vars@) =~= issue_vars(ticket@));
        match fill_template(issue_format, &vars) {
            Ok(issue) => {
                writer.release_note(
                    variant,
                    ticket.as_str(),
                    notes[j].1.as_str(),
                    issue.as_str(),
                );
                assert(writer.written() =~= start + note_lines(
                    variant.show_content,
                    issue_format@,
                    now,
                )->Some_0);
            },
            Err(_) => {
                proof {
                    lemma_note_lines_fail(variant.show_content, issue_format@, pairs_view(notes@), (j + 1) as nat);
                }
                return Err(NoteError::InvalidIssueFormat);
            },
        }
        j = j + 1;
    }
    assert(notes@.subrange(0, notes@.len() as int) =~= notes@);
    writer.variant_footer();
    Ok(())
}

/// Once the issue template fails on one note of a list, the lines of the
/// whole list fail.
proof fn lemma_note_lines_fail(
    show_content: bool,
    issue_format: Seq<char>,
    notes: Seq<(Seq<char>, Seq<char>)>,
    m: nat,
)
    requires
        m <= notes.len(),
        note_lines(show_content, issue_format, notes.subrange(0, m as int)) is None,
    ensures
        note_lines(show_content, issue_format, notes) is None,
    decreases notes.len() - m,
{
    if m < notes.len() {
        assert(notes.subrange(0, (m + 1) as int).drop_last() =~= notes.subrange(0, m as int));
        lemma_note_lines_fail(show_content, issue_format, notes, m + 1);
    } else {
        assert(notes.subrange(0, m as int) =~= notes);
    }
}

/// Once the sections of the first `m` variants fail, those of more fail.
proof fn lemma_body_lines_fail(
    formatter: NoteFormatter,
    variants: Seq<NoteVariant>,
    groups: Seq<Seq<(Seq<char>, Seq<char>)>>,
    issue_format: Seq<char>,
    m: nat,
    n: nat,
)
    requires
        m <= n,
        body_lines(formatter, variants, groups, issue_format, m) is None,
    ensures
        body_lines(formatter, variants, groups, issue_format, n) is None,
    decreases n,
{
    if m < n {
        lemma_body_lines_fail(formatter, variants, groups, issue_format, m, (n - 1) as nat);
    }
}

/// Writes the release notes of a version into `writer` and takes them out
/// as one string: the title made from `title_format`, then, for each variant
/// of `config` in order that has notes in `notes_by_variant` (the list of the
/// same index), a section with a line for each note, its issue made from
/// `issue_format`. Fails on the first template that cannot be filled in.
pub fn compile_release_notes(
    writer: &mut StringWriter,
    config: &Configuration,
    version: &str,
    project_date: &str,
    notes_by_variant: &Vec<Vec<(String, String)>>,
) -> (r: Result<String, NoteError>)
    ensures
        final(writer).dialect() == old(writer).dialect(),
        match template_output(config.title_format@, title_vars(version@, project_date@)) {
            None => r == Err::<String, NoteError>(NoteError::InvalidTitleFormat)
                && final(writer).written() == old(writer).written(),
            Some(title) => match body_lines(
                old(writer).dialect(),
                config.variant@,
                groups_view(notes_by_variant@),
                config.issue_format@,
                config.variant@.len(),
            ) {
                Some(body) => r matches Ok(s) && s@ == join_lines(
                    old(writer).written() + old(writer).dialect().title_lines(title) + body,
                ) && final(writer).written() == Seq::<Seq<char>>::empty(),
                None => r == Err::<String, NoteError>(NoteError::InvalidIssueFormat),
            },
        },
{
    proof {
        reveal_strlit("project_date");
        reveal_strlit("version");
    }
    let vars = vec![
        ("project_date".to_owned(), project_date.to_owned()),
        ("version".to_owned(), version.to_owned()),
    ];
    assert(pairs_view(vars@) =~= title_vars(version@, project_date@));
    let title = match fill_template(config.title_format.as_str(), &vars) {
        Ok(title) => title,
        Err(_) => {
            return Err(NoteError::InvalidTitleFormat);
        },
    };
    writer.title(title.as_str());
    let ghost groups = groups_view(notes_by_variant@);
    let ghost start = writer.written();
    let ghost formatter = writer.dialect();
    let mut k: usize = 0;
    while k < config.variant.len()
        invariant
            k <= config.variant@.len(),
            writer.dialect() == formatter,
            formatter == old(writer).dialect(),
            start == old(writer).written() + formatter.title_lines(title@),
            template_output(config.title_format@, title_vars(version@, project_date@)) == Some(
                title@,
            ),
            groups == groups_view(notes_by_variant@),
            match body_lines(formatter, config.variant@, groups, config.issue_format@, k as nat) {
                Some(body) => writer.written() == start + body,
                None => false,
            },
        decreases config.variant.len() - k,
    {
        if k < notes_by_variant.len() && notes_by_variant[k].len() > 0 {
            assert(notes_at(groups, k as int) == pairs_view(notes_by_variant@[k as int]@));
            let done = write_section(
                writer,
                &config.variant[k],
                config.issue_format.as_str(),
                &notes_by_variant[k],
            );
            if done.is_err() {
                proof {
                    lemma_body_lines_fail(
                        formatter,
                        config.variant@,
                        groups,
                        config.issue_format@,
                        (k + 1) as nat,
                        config.variant@.len(),
                    );
                }
                return Err(NoteError::InvalidIssueFormat);
            }
        }
        k = k + 1;
    }
    Ok(writer.write())
}

/// The new release notes followed by a newline and the earlier contents of
/// the release notes file.
pub fn prepend_notes(release_notes: &str, existing: &str) -> (r: String)
    ensures
        r@ == release_notes@ + seq!['\n'] + existing@,
{
    proof {
        reveal_strlit("\n");
    }
    let mut r = release_notes.to_owned();
    r.append("\n");
    r.append(existing);
    r
}

} // verus!
