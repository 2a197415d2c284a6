use vstd::prelude::*;
use vstd::string::StrSliceExecFns;

use crate::configs::{Configuration, NoteVariant};
use crate::formatter::NoteFormatter;

verus! {

/// Whether `s` ends with `suffix`.
pub open spec fn ends_with(s: Seq<char>, suffix: Seq<char>) -> bool {
    suffix.len() <= s.len() && s.subrange(s.len() - suffix.len(), s.len() as int) == suffix
}

/// Whether `name` is the name of a fragment file of the given extension:
/// it ends with a dot and the extension.
pub open spec fn has_extension(name: Seq<char>, extension: Seq<char>) -> bool {
    ends_with(name, seq!['.'] + extension)
}

/// The first of `variants[0..n]` that `name` has the extension of.
pub open spec fn first_match(variants: Seq<NoteVariant>, name: Seq<char>, n: nat) -> Option<int>
    decreases n,
{
    if n == 0 {
        None
    } else {
        match first_match(variants, name, (n - 1) as nat) {
            Some(i) => Some(i),
            None => if has_extension(name, variants[n - 1].extension@) {
                Some(n - 1)
            } else {
                None
            },
        }
    }
}

/// The first variant that the file name `name` has the extension of.
pub open spec fn matching_variant(variants: Seq<NoteVariant>, name: Seq<char>) -> Option<int> {
    first_match(variants, name, variants.len())
}

/// The file name without the dot and the extension that end it.
pub open spec fn base_name(name: Seq<char>, extension: Seq<char>) -> Seq<char> {
    name.subrange(0, name.len() - extension.len() - 1)
}

/// The characters of each string of a sequence of pairs.
pub open spec fn pairs_view(v: Seq<(String, String)>) -> Seq<(Seq<char>, Seq<char>)> {
    v.map_values(|p: (String, String)| (p.0@, p.1@))
}

/// The note that a file of the given name and contents is, with the index
/// of its variant: none where the name has the extension of no variant.
pub open spec fn file_note(variants: Seq<NoteVariant>, file: (Seq<char>, Seq<char>)) -> Option<
    (int, (Seq<char>, Seq<char>)),
> {
    match matching_variant(variants, file.0) {
        Some(i) => Some((i, (base_name(file.0, variants[i].extension@), file.1))),
        None => None,
    }
}

/// The notes among `files` that belong to the variant of index `k`, in
/// the order of the files.
pub open spec fn group(
    variants: Seq<NoteVariant>,
    files: Seq<(Seq<char>, Seq<char>)>,
    k: int,
) -> Seq<(Seq<char>, Seq<char>)>
    decreases files.len(),
{
    if files.len() == 0 {
        Seq::empty()
    } else {
        let rest = group(variants, files.drop_last(), k);
        match file_note(variants, files.last()) {
            Some(found) => if found.0 == k {
                rest.push(found.1)
            } else {
                rest
            },
            None => rest,
        }
    }
}

/// Once a variant among the first `m` matches, it stays the first match
/// among more of them.
proof fn lemma_first_match_stays(variants: Seq<NoteVariant>, name: Seq<char>, m: nat, n: nat)
    requires
        m <= n,
        first_match(variants, name, m) is Some,
    ensures
        first_match(variants, name, n) == first_match(variants, name, m),
    decreases n,
{
    if n > m {
        lemma_first_match_stays(variants, name, m, (n - 1) as nat);
    }
}

/// Whether `s` ends with `suffix`.
pub fn str_ends_with(s: &str, suffix: &str) -> (r: bool)
    ensures
        r == ends_with(s@, suffix@),
{
    let n = s.unicode_len();
    let m = suffix.unicode_len();
    if m > n {
        return false;
    }
    let start = n - m;
    let mut i: usize = 0;
    while i < m
        invariant
            i <= m,
            m <= n,
            start == n - m,
            n == s@.len(),
            m == suffix@.len(),
            forall|j: int| 0 <= j < i ==> s@[start + j] == suffix@[j],
        decreases m - i,
    {
        if s.get_char(start + i) != suffix.get_char(i) {
            assert(s@.subrange(start as int, n as int)[i as int] != suffix@[i as int]);
            return false;
        }
        i = i + 1;
    }
    assert(s@.subrange(start as int, n as int) =~= suffix@);
    true
}

/// Whether `name` ends with a dot and `extension`.
pub fn str_has_extension(name: &str, extension: &str) -> (r: bool)
    ensures
        r == has_extension(name@, extension@),
{
    let n = name.unicode_len();
    let m = extension.unicode_len();
    let ghost dotted = seq!['.'] + extension@;
    if n <= m {
        return false;
    }
    if name.get_char(n - m - 1) != '.' {
        assert(name@.subrange(n - m - 1, n as int)[0] != dotted[0]);
        return false;
    }
    let r = str_ends_with(name, extension);
    if r {
        assert(name@.subrange(n - m - 1, n as int) =~= dotted);
    } else {
        assert(name@.subrange(n - m - 1, n as int).subrange(1, m + 1) =~= name@.subrange(
            n - m,
            n as int,
        ));
        assert(dotted.subrange(1, m + 1) =~= extension@);
    }
    r
}

/// The index of the first variant of `config` that `file_name` has the
/// extension of.
pub fn find_variant(config: &Configuration, file_name: &str) -> (r: Option<usize>)
    ensures
        match r {
            Some(i) => matching_variant(config.variant@, file_name@) == Some(i as int),
            None => matching_variant(config.variant@, file_name@) is None,
        },
        r matches Some(i) ==> i < config.variant@.len() && has_extension(
            file_name@,
            config.variant@[i as int].extension@,
        ),
{
    let variants = &config.variant;
    let mut i: usize = 0;
    while i < variants.len()
        invariant
            i <= variants@.len(),
            variants == &config.variant,
            first_match(variants@, file_name@, i as nat) is None,
        decreases variants.len() - i,
    {
        if str_has_extension(file_name, variants[i].extension.as_str()) {
            proof {
                lemma_first_match_stays(variants@, file_name@, (i + 1) as nat, variants@.len());
            }
            return Some(i);
        }
        i = i + 1;
    }
    None
}

/// The note that a fragment file holds, with the index of its variant.
pub fn note_for_file(config: &Configuration, file_name: &str, contents: &str) -> (r: Option<
    (usize, (String, String)),
>)
    ensures
        match file_note(config.variant@, (file_name@, contents@)) {
            Some(found) => r matches Some(x) && x.0 == found.0 && x.1.0@ == found.1.0 && x.1.1@
                == found.1.1,
            None => r is None,
        },
{
    match find_variant(config, file_name) {
        Some(i) => {
            let name_len = file_name.unicode_len();
            let extension_len = config.variant[i].extension.as_str().unicode_len();
            let base = file_name.substring_char(0, name_len - extension_len - 1);
            Some((i, (base.to_owned(), contents.to_owned())))
        },
        None => None,
    }
}

/// Sorts fragment files, given as pairs of a file name and its contents, into
/// one list of notes for each variant of `config`, in the variants' order;
/// a note is the file name without its dot and extension, and the contents.
pub fn group_notes(config: &Configuration, files: &Vec<(String, String)>) -> (r: Vec<
    Vec<(String, String)>,
>)
    ensures
        r@.len() == config.variant@.len(),
        forall|k: int|
            0 <= k < r@.len() ==> pairs_view(#[trigger] r@[k]@) == group(
                config.variant@,
                pairs_view(files@),
                k,
            ),
{
    let mut groups: Vec<Vec<(String, String)>> = Vec::new();
    let mut k: usize = 0;
    while k < config.variant.len()
        invariant
            k <= config.variant@.len(),
            groups@.len() == k,
            forall|j: int|
                0 <= j < k ==> pairs_view(#[trigger] groups@[j]@) == group(
                    config.variant@,
                    pairs_view(files@),
                    j,
                ),
        decreases config.variant.len() - k,
    {
        let mut notes: Vec<(String, String)> = Vec::new();
        let mut f: usize = 0;
        while f < files.len()
            invariant
                f <= files@.len(),
                pairs_view(notes@) == group(
                    config.variant@,
                    pairs_view(files@.subrange(0, f as int)),
                    k as int,
                ),
            decreases files.len() - f,
        {
            let ghost seen = pairs_view(files@.subrange(0, f as int));
            let ghost now = pairs_view(files@.subrange(0, f + 1));
            assert(now.drop_last() =~= seen);
            assert(now.last() == (files@[f as int].0@, files@[f as int].1@));
            let ghost before = notes@;
            match note_for_file(config, files[f].0.as_str(), files[f].1.as_str()) {
                Some(found) => {
                    if found.0 == k {
                        notes.push(found.1);
                        assert(pairs_view(notes@) =~= pairs_view(before).push(
                            (notes@.last().0@, notes@.last().1@),
                        ));
                    }
                },
                None => {},
            }
            f = f + 1;
        }
        assert(files@.subrange(0, files@.len() as int) =~= files@);
        groups.push(notes);
        assert(groups@[k as int] == notes);
        k = k + 1;
    }
    groups
}

/// Whether any of the lists holds a note.
pub fn any_notes(groups: &Vec<Vec<(String, String)>>) -> (r: bool)
    ensures
        r == exists|k: int| 0 <= k < groups@.len() && (#[trigger] groups@[k]).len() > 0,
{
    let mut k: usize = 0;
    while k < groups.len()
        invariant
            k <= groups@.len(),
            forall|j: int| 0 <= j < k ==> (#[trigger] groups@[j]).len() == 0,
        decreases groups.len() - k,
    {
        if groups[k].len() > 0 {
            return true;
        }
        k = k + 1;
    }
    false
}

/// The dialect of a release notes file with the given name: Markdown for
/// `.md`, plain text for `.rst`, none for any other name.
pub fn formatter_for_filename(filename: &str) -> (r: Option<NoteFormatter>)
    ensures
        r == (if ends_with(filename@, seq!['.', 'm', 'd']) {
            Some(NoteFormatter::Markdown)
        } else if ends_with(filename@, seq!['.', 'r', 's', 't']) {
            Some(NoteFormatter::Text)
        } else {
            None
        }),
{
    proof {
        reveal_strlit(".md");
        reveal_strlit(".rst");
    }
    assert(".md"@ =~= seq!['.', 'm', 'd']);
    assert(".rst"@ =~= seq!['.', 'r', 's', 't']);
    if str_ends_with(filename, ".md") {
        Some(NoteFormatter::Markdown)
    } else if str_ends_with(filename, ".rst") {
        Some(NoteFormatter::Text)
    } else {
        None
    }
}

} // verus!
