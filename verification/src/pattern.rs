//! Text-matching primitives shared by the diagnostic checks: substring
//! containment, character-wise string equality, and matching of fixed
//! regular-expression patterns.

use vstd::prelude::*;

verus! {

/// `pattern` occurs as a contiguous run of characters somewhere in `text`.
pub open spec fn is_substring(text: Seq<char>, pattern: Seq<char>) -> bool {
    exists|i: int|
        0 <= i && i + pattern.len() <= text.len() && #[trigger] text.subrange(
            i,
            i + pattern.len(),
        ) == pattern
}

/// Relies on `str::contains`: true exactly when the pattern string occurs as
/// a contiguous substring of the text.
#[verifier::external_body]
pub(crate) fn contains_str(text: &str, pattern: &str) -> (r: bool)
    ensures
        r == is_substring(text@, pattern@),
{
    text.contains(pattern)
}

/// Whether the regular expression `pattern` matches anywhere in `text`.
/// The match relation of the full regular-expression language cannot be
/// restated here in a few lines, so the result only carries a name; it is a
/// function of the pattern and the text alone.
pub uninterp spec fn regex_is_match(pattern: Seq<char>, text: Seq<char>) -> bool;

/// Relies on `regex::Regex::new` and `regex::Regex::is_match`: whether the
/// pattern, compiled as a regular expression, matches anywhere in the text.
/// Every pattern handed in by this crate is a fixed literal that compiles;
/// a pattern that failed to compile would match nothing.
#[verifier::external_body]
pub(crate) fn regex_match(text: &str, pattern: &str) -> (r: bool)
    ensures
        r == regex_is_match(pattern@, text@),
{
    match regex::Regex::new(pattern) {
        Ok(re) => re.is_match(text),
        Err(_) => false,
    }
}

/// Character-for-character string equality, proved against the string views.
pub(crate) fn str_eq(a: &str, b: &str) -> (r: bool)
    ensures
        r == (a@ == b@),
{
    let a_len = a.unicode_len();
    let b_len = b.unicode_len();
    if a_len != b_len {
        return false;
    }
    let mut i: usize = 0;
    while i < a_len
        invariant
            a@.len() == a_len,
            b@.len() == b_len,
            a_len == b_len,
            i <= a_len,
            forall|j: int| 0 <= j < i ==> a@[j] == b@[j],
        decreases a_len - i,
    {
        if a.get_char(i) != b.get_char(i) {
            return false;
        }
        i += 1;
    }
    proof {
        assert(a@ =~= b@);
    }
    true
}

} // verus!
