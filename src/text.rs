use vstd::prelude::*;
use vstd::string::StringExecFns;
use vstd::utf8::encode_utf8;

verus! {

/// `n` copies of the character `c`.
pub open spec fn repeat_char(c: char, n: nat) -> Seq<char> {
    Seq::new(n, |_i: int| c)
}

/// The length of a text in bytes of UTF-8, as `str::len` reports it.
pub open spec fn byte_len(s: Seq<char>) -> usize {
    encode_utf8(s).len() as usize
}

/// The characters of each string of a sequence.
pub open spec fn lines_view(v: Seq<String>) -> Seq<Seq<char>> {
    v.map_values(|s: String| s@)
}

/// The lines put one after the other, with a single newline between two
/// neighbours and none at either end.
pub open spec fn join_lines(lines: Seq<Seq<char>>) -> Seq<char>
    decreases lines.len(),
{
    if lines.len() == 0 {
        Seq::empty()
    } else if lines.len() == 1 {
        lines[0]
    } else {
        join_lines(lines.drop_last()) + seq!['\n'] + lines.last()
    }
}

/// A string of `n` copies of the one character of `unit`.
pub fn repeated(unit: &str, n: usize) -> (r: String)
    requires
        unit@.len() == 1,
    ensures
        r@ == repeat_char(unit@[0], n as nat),
{
    let mut s = String::new();
    let mut i: usize = 0;
    while i < n
        invariant
            i <= n,
            unit@.len() == 1,
            s@ == repeat_char(unit@[0], i as nat),
        decreases n - i,
    {
        s.append(unit);
        assert(s@ =~= repeat_char(unit@[0], (i + 1) as nat));
        i = i + 1;
    }
    s
}

/// The lines joined by single newlines.
pub fn join_with_newlines(lines: &Vec<String>) -> (r: String)
    ensures
        r@ == join_lines(lines_view(lines@)),
{
    let mut s = String::new();
    let mut i: usize = 0;
    while i < lines.len()
        invariant
            i <= lines.len(),
            s@ == join_lines(lines_view(lines@.subrange(0, i as int))),
        decreases lines.len() - i,
    {
        let ghost before = lines_view(lines@.subrange(0, i as int));
        let ghost after = lines_view(lines@.subrange(0, i + 1));
        assert(after.drop_last() =~= before);
        if i > 0 {
            proof {
                reveal_strlit("\n");
            }
            s.append("\n");
        }
        s.append(lines[i].as_str());
        assert(after.last() == lines[i as int]@);
        assert(s@ =~= join_lines(after));
        i = i + 1;
    }
    assert(lines@.subrange(0, lines.len() as int) =~= lines@);
    s
}

} // verus!
