use vstd::prelude::*;

verus! {

/// Compares two string slices with `==` of `str`, that is `PartialEq::eq` of
/// std. Trusted: std documents that two string slices are equal exactly if
/// they hold the same characters, which is what the contract says over the
/// views; Verus does not see the body.
#[verifier::external_body]
pub(crate) fn str_eq(left: &str, right: &str) -> (equal: bool)
    ensures
        equal == (left@ == right@),
{
    left == right
}

/// Tells whether a string slice starts with another, with `str::starts_with`
/// of std. Trusted: std documents that it returns true exactly if the pattern,
/// here a string slice, matches a prefix of the text; the contract says so
/// over the views. Verus does not see the body.
#[verifier::external_body]
pub(crate) fn str_starts_with(text: &str, prefix: &str) -> (starts: bool)
    ensures
        starts == prefix@.is_prefix_of(text@),
{
    text.starts_with(prefix)
}

/// Tells whether a string slice ends with another, with `str::ends_with` of
/// std. Trusted: std documents that it returns true exactly if the pattern,
/// here a string slice, matches a suffix of the text; the contract says so
/// over the views. Verus does not see the body.
#[verifier::external_body]
pub(crate) fn str_ends_with(text: &str, suffix: &str) -> (ends: bool)
    ensures
        ends == suffix@.is_suffix_of(text@),
{
    text.ends_with(suffix)
}

} // verus!
