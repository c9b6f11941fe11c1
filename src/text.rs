//! Text matching used by search: case-insensitive substring containment.
use vstd::prelude::*;

verus! {

/// What `str::to_lowercase` gives for a sequence of characters.
pub uninterp spec fn lower_of(s: Seq<char>) -> Seq<char>;

/// `needle` occurs as a contiguous run of characters inside `hay`.
pub open spec fn has_substring(hay: Seq<char>, needle: Seq<char>) -> bool {
    exists|i: int|
        0 <= i && i + needle.len() <= hay.len() && #[trigger] hay.subrange(i, i + needle.len())
            == needle
}

/// Relies on `str::to_lowercase`: the result depends on the characters alone.
#[verifier::external_body]
fn lowercase(s: &str) -> (r: String)
    ensures
        r@ == lower_of(s@),
{
    s.to_lowercase()
}

/// Relies on `str::contains` with a `&str` pattern: true exactly when the
/// pattern is a sub-slice of the string.
#[verifier::external_body]
fn contains_str(hay: &str, needle: &str) -> (r: bool)
    ensures
        r == has_substring(hay@, needle@),
{
    hay.contains(needle)
}

/// Containment once both sides are lowercased: `folded_hay` and
/// `folded_needle` are what lowercasing gave for the text and the pattern.
pub fn contains_folded(folded_hay: &str, folded_needle: &str) -> (r: bool)
    ensures
        r == has_substring(folded_hay@, folded_needle@),
{
    contains_str(folded_hay, folded_needle)
}

/// Case-insensitive containment: `needle` occurs in `hay` once both are lowercased.
pub fn contains_ignore_case(hay: &str, needle: &str) -> (r: bool)
    ensures
        r == has_substring(lower_of(hay@), lower_of(needle@)),
{
    let h = lowercase(hay);
    let n = lowercase(needle);
    contains_folded(h.as_str(), n.as_str())
}

} // verus!
