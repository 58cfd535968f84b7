//! The path normalizer: maps a raw documentation location to the
//! viewer-relative path of the page it names.
//!
//! A directory-style location (trailing `/`) gets `index.html` appended;
//! otherwise every `/#` (a directory reference combined with an in-page
//! anchor) becomes `/index.html#`; any other location already names a
//! concrete page and passes through unchanged.

use vstd::prelude::*;
use vstd::string::StrSliceExecFns;
use vstd::string::StringExecFns;

verus! {

/// Every occurrence of `/#` in `s` replaced by `/index.html#`, scanning
/// left to right and resuming after each replaced occurrence.
pub open spec fn spec_replace_anchor(s: Seq<char>) -> Seq<char>
    decreases s.len(),
{
    if s.len() >= 2 && s[0] == '/' && s[1] == '#' {
        "/index.html#"@ + spec_replace_anchor(s.subrange(2, s.len() as int))
    } else if s.len() == 0 {
        s
    } else {
        seq![s[0]] + spec_replace_anchor(s.subrange(1, s.len() as int))
    }
}

/// The normalized form of a location: its index page for a directory-style
/// location, else the location with every directory anchor expanded.
pub open spec fn spec_normalize(loc: Seq<char>) -> Seq<char> {
    if loc.len() > 0 && loc.last() == '/' {
        loc + "index.html"@
    } else {
        spec_replace_anchor(loc)
    }
}

/// Whether `s` holds no `/#` at all.
pub open spec fn spec_anchor_free(s: Seq<char>) -> bool {
    forall|j: int| 0 <= j < s.len() - 1 ==> !((#[trigger] s[j]) == '/' && s[j + 1] == '#')
}

/// A string without `/#` is left as it is by the replacement.
pub proof fn lemma_replace_anchor_free(s: Seq<char>)
    requires
        spec_anchor_free(s),
    ensures
        spec_replace_anchor(s) == s,
    decreases s.len(),
{
    if s.len() == 0 {
    } else {
        assert(!(s.len() >= 2 && s[0] == '/' && s[1] == '#'));
        let tail = s.subrange(1, s.len() as int);
        assert forall|j: int| 0 <= j < tail.len() - 1 implies !((#[trigger] tail[j]) == '/'
            && tail[j + 1] == '#') by {
            assert(tail[j] == s[j + 1]);
            assert(tail[j + 1] == s[j + 2]);
        }
        lemma_replace_anchor_free(tail);
        assert(seq![s[0]] + tail =~= s);
    }
}

/// Unfolds the replacement at the first occurrence of `/#`: everything
/// before it is kept, the occurrence becomes `/index.html#`, and the
/// replacement goes on after it.
pub proof fn lemma_replace_anchor_first(s: Seq<char>, i: int)
    requires
        0 <= i,
        i + 1 < s.len(),
        s[i] == '/',
        s[i + 1] == '#',
        forall|j: int| 0 <= j < i ==> !((#[trigger] s[j]) == '/' && s[j + 1] == '#'),
    ensures
        spec_replace_anchor(s) == s.subrange(0, i) + "/index.html#"@ + spec_replace_anchor(
            s.subrange(i + 2, s.len() as int),
        ),
    decreases i,
{
    if i == 0 {
        assert(s.subrange(0, 0) + "/index.html#"@ + spec_replace_anchor(
            s.subrange(2, s.len() as int),
        ) =~= "/index.html#"@ + spec_replace_anchor(s.subrange(2, s.len() as int)));
    } else {
        assert(!(s[0] == '/' && s[1] == '#'));
        let tail = s.subrange(1, s.len() as int);
        assert(tail[i - 1] == s[i]);
        assert(tail[i] == s[i + 1]);
        assert forall|j: int| 0 <= j < i - 1 implies !((#[trigger] tail[j]) == '/' && tail[j + 1]
            == '#') by {
            assert(tail[j] == s[j + 1]);
            assert(tail[j + 1] == s[j + 2]);
        }
        lemma_replace_anchor_first(tail, i - 1);
        assert(tail.subrange(i + 1, tail.len() as int) =~= s.subrange(i + 2, s.len() as int));
        assert(seq![s[0]] + (tail.subrange(0, i - 1) + "/index.html#"@ + spec_replace_anchor(
            s.subrange(i + 2, s.len() as int),
        )) =~= s.subrange(0, i) + "/index.html#"@ + spec_replace_anchor(
            s.subrange(i + 2, s.len() as int),
        ));
    }
}

/// Replaces every `/#` in `s` by `/index.html#`.
pub fn replace_anchor(s: &str) -> (r: String)
    ensures
        r@ == spec_replace_anchor(s@),
    decreases s@.len(),
{
    let n: usize = s.unicode_len();
    let mut i: usize = 0;
    while n > 0 && i < n - 1
        invariant
            n == s@.len(),
            i <= n,
            forall|j: int| 0 <= j < i ==> !((#[trigger] s@[j]) == '/' && s@[j + 1] == '#'),
        decreases n - i,
    {
        if s.get_char(i) == '/' && s.get_char(i + 1) == '#' {
            let head = s.substring_char(0, i);
            let tail = s.substring_char(i + 2, n);
            let rest = replace_anchor(tail);
            proof {
                lemma_replace_anchor_first(s@, i as int);
            }
            return String::from_str(head).concat("/index.html#").concat(rest.as_str());
        }
        i = i + 1;
    }
    proof {
        lemma_replace_anchor_free(s@);
    }
    s.to_owned()
}

/// Normalizes a raw location to the viewer-relative path of the page it
/// names. A directory-style location gets its index page appended; a
/// directory anchor is expanded; any other location is returned unchanged.
pub fn normalize(location: &str) -> (r: String)
    ensures
        r@ == spec_normalize(location@),
        location@.len() > 0 && location@.last() == '/' ==> r@ == location@ + "index.html"@,
        spec_anchor_free(location@) && !(location@.len() > 0 && location@.last() == '/') ==> r@
            == location@,
{
    let n: usize = location.unicode_len();
    if n > 0 && location.get_char(n - 1) == '/' {
        String::from_str(location).concat("index.html")
    } else {
        let r = replace_anchor(location);
        proof {
            if spec_anchor_free(location@) {
                lemma_replace_anchor_free(location@);
            }
        }
        r
    }
}

} // verus!
