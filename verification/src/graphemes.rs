//! Grapheme-cluster segmentation, the unit of indexing for all row
//! operations. Segmentation itself is delegated to the
//! `unicode-segmentation` crate; everything downstream works on the
//! resulting sequence of clusters.

use vstd::prelude::*;
use unicode_segmentation::UnicodeSegmentation;

verus! {

/// The extended grapheme clusters of a character sequence, in order.
/// This names the result of `unicode-segmentation`'s segmentation, which
/// is a function of the characters alone.
pub uninterp spec fn graphemes_of(s: Seq<char>) -> Seq<Seq<char>>;

/// Relies on `UnicodeSegmentation::graphemes(true)`: it yields the extended
/// grapheme clusters of the string, in order; the clusters are non-empty
/// substrings that together make up exactly the original string.
#[verifier::external_body]
pub fn split_graphemes(s: &str) -> (r: Vec<String>)
    ensures
        r.deep_view() == graphemes_of(s@),
        r.deep_view().flatten() == s@,
        forall|i: int|
            0 <= i < r.deep_view().len() ==> #[trigger] r.deep_view()[i].len() > 0,
{
    s.graphemes(true).map(|g| g.to_string()).collect()
}

} // verus!
