//! Case folding and substring search over strings, as the selector and the
//! thumbnail strategy need them.

use vstd::prelude::*;

verus! {

/// The character sequence that Unicode lowercase mapping yields for `s`:
/// the result depends on the characters of `s` alone.
pub uninterp spec fn lower_of(s: Seq<char>) -> Seq<char>;

/// `needle` occurs contiguously somewhere in `hay`.
pub open spec fn seq_contains_sub(hay: Seq<char>, needle: Seq<char>) -> bool {
    exists|i: int|
        0 <= i <= hay.len() - needle.len() && #[trigger] hay.subrange(
            i,
            i + needle.len() as int,
        ) == needle
}

/// Relies on str::to_lowercase: the Unicode lowercase mapping of the input,
/// a function of its characters alone; an empty string stays empty.
#[verifier::external_body]
pub fn lowercase(s: &str) -> (r: String)
    ensures
        r@ == lower_of(s@),
        s@.len() == 0 ==> r@.len() == 0,
{
    s.to_lowercase()
}

/// Relies on str::contains: true exactly when the needle matches a
/// contiguous sub-slice of the haystack.
#[verifier::external_body]
pub fn contains_str(hay: &str, needle: &str) -> (r: bool)
    ensures
        r == seq_contains_sub(hay@, needle@),
{
    hay.contains(needle)
}

} // verus!
