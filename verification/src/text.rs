//! Small verified string utilities: prefix tests, equality of string
//! views, and trimming of trailing line whitespace. The protocol the
//! library speaks is line oriented, so these are the only string
//! operations its logic needs.

use vstd::prelude::*;
use vstd::string::StrSliceExecFns;

verus! {

/// `p` is a prefix of `s`.
pub open spec fn starts_with(s: Seq<char>, p: Seq<char>) -> bool {
    p.len() <= s.len() && s.subrange(0, p.len() as int) == p
}

/// Executable prefix test, character by character.
pub fn str_starts_with(s: &str, p: &str) -> (r: bool)
    ensures
        r == starts_with(s@, p@),
{
    let sl = s.unicode_len();
    let pl = p.unicode_len();
    if pl > sl {
        return false;
    }
    let mut i: usize = 0;
    while i < pl
        invariant
            i <= pl,
            pl <= sl,
            pl == p@.len(),
            sl == s@.len(),
            forall|j: int| 0 <= j < i ==> s@[j] == p@[j],
        decreases pl - i,
    {
        if s.get_char(i) != p.get_char(i) {
            proof {
                assert(starts_with(s@, p@) ==> s@.subrange(0, p@.len() as int)[i as int] == p@[i as int]);
            }
            return false;
        }
        i += 1;
    }
    proof {
        assert(s@.subrange(0, p@.len() as int) =~= p@);
    }
    true
}

/// Executable equality of two string slices by their character views.
pub fn str_eq(a: &str, b: &str) -> (r: bool)
    ensures
        r == (a@ == b@),
{
    let al = a.unicode_len();
    let bl = b.unicode_len();
    if al != bl {
        return false;
    }
    let mut i: usize = 0;
    while i < al
        invariant
            i <= al,
            al == a@.len(),
            bl == b@.len(),
            al == bl,
            forall|j: int| 0 <= j < i ==> a@[j] == b@[j],
        decreases al - i,
    {
        if a.get_char(i) != b.get_char(i) {
            return false;
        }
        i += 1;
    }
    proof {
        assert(a@ =~= b@);
    }
    true
}

/// The whitespace characters that may trail a protocol line.
pub open spec fn is_line_ws(c: char) -> bool {
    c == ' ' || c == '\t' || c == '\r' || c == '\n'
}

/// `s` with every trailing whitespace character removed.
pub open spec fn trim_end_ws(s: Seq<char>) -> Seq<char>
    decreases s.len(),
{
    if s.len() > 0 && is_line_ws(s[s.len() - 1]) {
        trim_end_ws(s.drop_last())
    } else {
        s
    }
}

/// Executable test for a trailing-whitespace character.
pub fn is_ws_char(c: char) -> (r: bool)
    ensures
        r == is_line_ws(c),
{
    c == ' ' || c == '\t' || c == '\r' || c == '\n'
}

/// The tail of `s` from character `from` on, with trailing whitespace
/// removed, as an owned string.
pub fn tail_trimmed(s: &str, from: usize) -> (r: String)
    requires
        from <= s@.len(),
    ensures
        r@ == trim_end_ws(s@.skip(from as int)),
{
    let len = s.unicode_len();
    proof {
        assert(s@.skip(from as int) =~= s@.subrange(from as int, len as int));
    }
    let mut end = len;
    while end > from && is_ws_char(s.get_char(end - 1))
        invariant
            from <= end <= len,
            len == s@.len(),
            trim_end_ws(s@.skip(from as int)) == trim_end_ws(s@.subrange(from as int, end as int)),
        decreases end,
    {
        proof {
            let cur = s@.subrange(from as int, end as int);
            assert(cur.drop_last() =~= s@.subrange(from as int, end as int - 1));
        }
        end = end - 1;
    }
    let sub = s.substring_char(from, end);
    sub.to_owned()
}

} // verus!
