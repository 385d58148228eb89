//! Character-level helpers: whitespace classification, string equality by
//! characters, and trimming of leading and trailing whitespace.

use vstd::prelude::*;
use vstd::string::StrSliceExecFns;

verus! {

/// The characters treated as whitespace when a formatted commit message is
/// trimmed: the Unicode `White_Space` set.
pub open spec fn spec_is_whitespace(c: char) -> bool {
    c == '\u{0009}' || c == '\u{000A}' || c == '\u{000B}' || c == '\u{000C}'
        || c == '\u{000D}' || c == '\u{0020}' || c == '\u{0085}' || c == '\u{00A0}'
        || c == '\u{1680}' || c == '\u{2000}' || c == '\u{2001}' || c == '\u{2002}'
        || c == '\u{2003}' || c == '\u{2004}' || c == '\u{2005}' || c == '\u{2006}'
        || c == '\u{2007}' || c == '\u{2008}' || c == '\u{2009}' || c == '\u{200A}'
        || c == '\u{2028}' || c == '\u{2029}' || c == '\u{202F}' || c == '\u{205F}'
        || c == '\u{3000}'
}

/// Decides `spec_is_whitespace` on a concrete character.
pub fn is_whitespace_char(c: char) -> (r: bool)
    ensures
        r == spec_is_whitespace(c),
{
    c == '\u{0009}' || c == '\u{000A}' || c == '\u{000B}' || c == '\u{000C}'
        || c == '\u{000D}' || c == '\u{0020}' || c == '\u{0085}' || c == '\u{00A0}'
        || c == '\u{1680}' || c == '\u{2000}' || c == '\u{2001}' || c == '\u{2002}'
        || c == '\u{2003}' || c == '\u{2004}' || c == '\u{2005}' || c == '\u{2006}'
        || c == '\u{2007}' || c == '\u{2008}' || c == '\u{2009}' || c == '\u{200A}'
        || c == '\u{2028}' || c == '\u{2029}' || c == '\u{202F}' || c == '\u{205F}'
        || c == '\u{3000}'
}

/// Compares two strings character by character.
pub fn str_eq(a: &str, b: &str) -> (r: bool)
    ensures
        r == (a@ == b@),
{
    let an = a.unicode_len();
    let bn = b.unicode_len();
    if an != bn {
        assert(a@ != b@) by {
            assert(a@.len() != b@.len());
        }
        return false;
    }
    let mut i: usize = 0;
    while i < an
        invariant
            an == a@.len(),
            an == b@.len(),
            i <= an,
            forall|j: int| 0 <= j < i ==> a@[j] == b@[j],
        decreases an - i,
    {
        if a.get_char(i) != b.get_char(i) {
            assert(a@ != b@) by {
                assert(a@[i as int] != b@[i as int]);
            }
            return false;
        }
        i += 1;
    }
    assert(a@ =~= b@);
    true
}

/// The string with leading and trailing whitespace removed: whitespace is
/// dropped from either end until both ends hold a non-whitespace character
/// (or nothing is left).
pub open spec fn spec_trim(s: Seq<char>) -> Seq<char>
    decreases s.len(),
{
    if s.len() == 0 {
        s
    } else if spec_is_whitespace(s[0]) {
        spec_trim(s.subrange(1, s.len() as int))
    } else if spec_is_whitespace(s[s.len() - 1]) {
        spec_trim(s.subrange(0, s.len() - 1))
    } else {
        s
    }
}

/// A string whose ends hold no whitespace is its own trim.
pub proof fn lemma_trim_noop(s: Seq<char>)
    requires
        s.len() > 0,
        !spec_is_whitespace(s[0]),
        !spec_is_whitespace(s[s.len() - 1]),
    ensures
        spec_trim(s) == s,
{
}

/// `spec_trim` returns the subrange between the first and last
/// non-whitespace characters.
proof fn lemma_trim_subrange(s: Seq<char>, a: int, b: int)
    requires
        0 <= a <= b <= s.len(),
        forall|i: int| 0 <= i < a ==> spec_is_whitespace(s[i]),
        forall|i: int| b <= i < s.len() ==> spec_is_whitespace(s[i]),
        a < b ==> !spec_is_whitespace(s[a]) && !spec_is_whitespace(s[b - 1]),
    ensures
        spec_trim(s) == s.subrange(a, b),
    decreases s.len(),
{
    if s.len() == 0 {
        assert(spec_trim(s) =~= s.subrange(a, b));
    } else if a > 0 {
        let s1 = s.subrange(1, s.len() as int);
        lemma_trim_subrange(s1, a - 1, b - 1);
        assert(s1.subrange(a - 1, b - 1) =~= s.subrange(a, b));
    } else if a == b {
        // the whole string is whitespace
        assert(spec_is_whitespace(s[0]));
        let s1 = s.subrange(1, s.len() as int);
        lemma_trim_subrange(s1, 0, 0);
        assert(s1.subrange(0, 0) =~= s.subrange(a, b));
    } else if b < s.len() {
        assert(!spec_is_whitespace(s[0]));
        assert(spec_is_whitespace(s[s.len() - 1]));
        let s2 = s.subrange(0, s.len() - 1);
        lemma_trim_subrange(s2, a, b);
        assert(s2.subrange(a, b) =~= s.subrange(a, b));
    } else {
        assert(spec_trim(s) == s);
        assert(s.subrange(0, s.len() as int) =~= s);
    }
}

/// Removes leading and trailing whitespace from a string.
pub fn trim_str(s: &str) -> (r: String)
    ensures
        r@ == spec_trim(s@),
{
    let n = s.unicode_len();
    let mut start: usize = 0;
    while start < n && is_whitespace_char(s.get_char(start))
        invariant
            n == s@.len(),
            start <= n,
            forall|i: int| 0 <= i < start ==> spec_is_whitespace(s@[i]),
        decreases n - start,
    {
        start += 1;
    }
    let mut end: usize = n;
    while end > start && is_whitespace_char(s.get_char(end - 1))
        invariant
            n == s@.len(),
            start <= end <= n,
            forall|i: int| end <= i < n ==> spec_is_whitespace(s@[i]),
        decreases end,
    {
        end -= 1;
    }
    proof {
        lemma_trim_subrange(s@, start as int, end as int);
    }
    let t = s.substring_char(start, end);
    t.to_owned()
}

} // verus!
