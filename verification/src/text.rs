//! Character-level string helpers: equality and character search.

use vstd::prelude::*;

verus! {

/// First index at or after `from` where `c` occurs in `s`, if any.
pub open spec fn spec_find_char(s: Seq<char>, from: int, c: char) -> Option<int>
    decreases s.len() - from,
{
    if from < 0 || from >= s.len() {
        None
    } else if s[from] == c {
        Some(from)
    } else {
        spec_find_char(s, from + 1, c)
    }
}

/// Whether two string slices hold the same characters.
pub fn str_eq(a: &str, b: &str) -> (r: bool)
    ensures
        r <==> a@ == b@,
{
    let na: usize = a.unicode_len();
    let nb: usize = b.unicode_len();
    if na != nb {
        return false;
    }
    let mut i: usize = 0;
    while i < na
        invariant
            na == a@.len(),
            na == b@.len(),
            i <= na,
            forall|j: int| 0 <= j < i ==> a@[j] == b@[j],
        decreases na - i,
    {
        if a.get_char(i) != b.get_char(i) {
            return false;
        }
        i = i + 1;
    }
    proof {
        assert(a@ =~= b@);
    }
    true
}

/// First index at or after `from` holding `c`, by a linear scan.
pub fn find_char(s: &str, from: usize, c: char) -> (r: Option<usize>)
    requires
        from <= s@.len(),
    ensures
        match r {
            Some(i) => from <= i < s@.len() && spec_find_char(s@, from as int, c) == Some(i as int),
            None => spec_find_char(s@, from as int, c) is None,
        },
{
    let n: usize = s.unicode_len();
    let mut i: usize = from;
    while i < n
        invariant
            n == s@.len(),
            from <= i <= n,
            spec_find_char(s@, from as int, c) == spec_find_char(s@, i as int, c),
        decreases n - i,
    {
        if s.get_char(i) == c {
            return Some(i);
        }
        i = i + 1;
    }
    None
}

} // verus!
