//! Character-level helpers shared by the classifier and the payload
//! builder: whitespace, first-occurrence scans over character sequences,
//! and the one `String` primitive that the rest of the library builds
//! its strings with.

use vstd::prelude::*;

verus! {

/// The whitespace characters that separate the status token from the path
/// in a diff record line.
pub open spec fn is_ws_char(c: char) -> bool {
    c == ' ' || c == '\t' || c == '\r' || c == '\n'
}

/// Index of the first `/` in `s`, or `s.len()` if there is none.
pub open spec fn find_slash(s: Seq<char>) -> int
    decreases s.len(),
{
    if s.len() == 0 {
        0
    } else if s[0] == '/' {
        0
    } else {
        1 + find_slash(s.drop_first())
    }
}

/// Index of the first whitespace character in `s`, or `s.len()`.
pub open spec fn find_ws(s: Seq<char>) -> int
    decreases s.len(),
{
    if s.len() == 0 {
        0
    } else if is_ws_char(s[0]) {
        0
    } else {
        1 + find_ws(s.drop_first())
    }
}

/// Index of the first non-whitespace character in `s`, or `s.len()`.
pub open spec fn find_non_ws(s: Seq<char>) -> int
    decreases s.len(),
{
    if s.len() == 0 {
        0
    } else if !is_ws_char(s[0]) {
        0
    } else {
        1 + find_non_ws(s.drop_first())
    }
}

pub proof fn lemma_find_slash(s: Seq<char>)
    ensures
        0 <= find_slash(s) <= s.len(),
        find_slash(s) < s.len() ==> s[find_slash(s)] == '/',
        forall|j: int| 0 <= j < find_slash(s) ==> s[j] != '/',
    decreases s.len(),
{
    if s.len() != 0 && s[0] != '/' {
        lemma_find_slash(s.drop_first());
        assert forall|j: int| 0 <= j < find_slash(s) implies s[j] != '/' by {
            if j > 0 {
                assert(s.drop_first()[j - 1] == s[j]);
            }
        }
        if find_slash(s) < s.len() {
            assert(s.drop_first()[find_slash(s) - 1] == s[find_slash(s)]);
        }
    }
}

pub proof fn lemma_find_ws(s: Seq<char>)
    ensures
        0 <= find_ws(s) <= s.len(),
        find_ws(s) < s.len() ==> is_ws_char(s[find_ws(s)]),
        forall|j: int| 0 <= j < find_ws(s) ==> !is_ws_char(s[j]),
    decreases s.len(),
{
    if s.len() != 0 && !is_ws_char(s[0]) {
        lemma_find_ws(s.drop_first());
        assert forall|j: int| 0 <= j < find_ws(s) implies !is_ws_char(s[j]) by {
            if j > 0 {
                assert(s.drop_first()[j - 1] == s[j]);
            }
        }
        if find_ws(s) < s.len() {
            assert(s.drop_first()[find_ws(s) - 1] == s[find_ws(s)]);
        }
    }
}

pub proof fn lemma_find_non_ws(s: Seq<char>)
    ensures
        0 <= find_non_ws(s) <= s.len(),
        find_non_ws(s) < s.len() ==> !is_ws_char(s[find_non_ws(s)]),
        forall|j: int| 0 <= j < find_non_ws(s) ==> is_ws_char(s[j]),
    decreases s.len(),
{
    if s.len() != 0 && is_ws_char(s[0]) {
        lemma_find_non_ws(s.drop_first());
        assert forall|j: int| 0 <= j < find_non_ws(s) implies is_ws_char(s[j]) by {
            if j > 0 {
                assert(s.drop_first()[j - 1] == s[j]);
            }
        }
        if find_non_ws(s) < s.len() {
            assert(s.drop_first()[find_non_ws(s) - 1] == s[find_non_ws(s)]);
        }
    }
}

/// A first occurrence is determined by its characterization: if nothing
/// before `i` is a slash and `i` is either the end or a slash, then `i`
/// is where the scan stops.
pub proof fn lemma_find_slash_is(s: Seq<char>, i: int)
    requires
        0 <= i <= s.len(),
        forall|j: int| 0 <= j < i ==> s[j] != '/',
        i < s.len() ==> s[i] == '/',
    ensures
        find_slash(s) == i,
{
    lemma_find_slash(s);
}

pub proof fn lemma_find_ws_is(s: Seq<char>, i: int)
    requires
        0 <= i <= s.len(),
        forall|j: int| 0 <= j < i ==> !is_ws_char(s[j]),
        i < s.len() ==> is_ws_char(s[i]),
    ensures
        find_ws(s) == i,
{
    lemma_find_ws(s);
}

pub proof fn lemma_find_non_ws_is(s: Seq<char>, i: int)
    requires
        0 <= i <= s.len(),
        forall|j: int| 0 <= j < i ==> is_ws_char(s[j]),
        i < s.len() ==> !is_ws_char(s[i]),
    ensures
        find_non_ws(s) == i,
{
    lemma_find_non_ws(s);
}

/// Appends one character to a `String`.
///
/// Relies on `String::push`: it appends exactly the given character.
#[verifier::external_body]
pub fn push_char(s: &mut String, c: char)
    ensures
        final(s)@ == old(s)@.push(c),
{
    s.push(c)
}

/// Scans `s` for its first `/`, returning `s.len()` when there is none.
pub fn scan_slash(s: &str) -> (r: usize)
    ensures
        r == find_slash(s@),
{
    let n = s.unicode_len();
    let mut i: usize = 0;
    while i < n
        invariant
            0 <= i <= n,
            n == s@.len(),
            forall|j: int| 0 <= j < i ==> s@[j] != '/',
        decreases n - i,
    {
        if s.get_char(i) == '/' {
            proof {
                lemma_find_slash_is(s@, i as int);
            }
            return i;
        }
        i += 1;
    }
    proof {
        lemma_find_slash_is(s@, n as int);
    }
    n
}

} // verus!
