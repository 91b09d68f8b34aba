//! Grapheme clusters: the characters a reader perceives.
//!
//! Where one cluster ends and the next begins is decided by the Unicode text
//! segmentation rules (UAX #29), which fill pages of tables. This crate does
//! not restate them: segmentation is done by the `unicode-segmentation`
//! crate, and the contracts here give its result a name. What is known of
//! that result beyond its name is that the clusters are cut out of the text
//! one after the other, none of them empty and nothing left over.

use unicode_segmentation::UnicodeSegmentation;
use vstd::prelude::*;

verus! {

/// The grapheme clusters of `text`, first to last: the extended clusters of
/// UAX #29 when `extended` is true, the legacy ones otherwise.
pub uninterp spec fn grapheme_clusters(text: Seq<char>, extended: bool) -> Seq<Seq<char>>;

/// The number of user-perceived characters in `text`: the number of its
/// extended grapheme clusters.
pub open spec fn grapheme_count(text: Seq<char>) -> nat {
    grapheme_clusters(text, true).len()
}

/// The characters of each of `slices`.
pub open spec fn contents(slices: Seq<&str>) -> Seq<Seq<char>> {
    slices.map_values(|slice: &str| slice@)
}

/// Whether `parts`, put end to end, make up `text`, with no part empty.
pub open spec fn partitions(parts: Seq<Seq<char>>, text: Seq<char>) -> bool {
    &&& parts.flatten() == text
    &&& forall|i: int| 0 <= i < parts.len() ==> (#[trigger] parts[i]).len() > 0
}

/// Splits `text` into its grapheme clusters.
///
/// Trusted, not proved. The body drains the iterator that
/// `unicode_segmentation::UnicodeSegmentation::graphemes` returns for `text`
/// and `extended`. The contract claims two things of what it yields. First,
/// that it is what [`grapheme_clusters`] names, which is to say that it
/// depends on nothing but the text and the flag. Second, that each item is a
/// slice of `text` that starts where the one before it ended and ends at
/// least one character later, the first starting at the beginning of `text`
/// and the last ending at its end.
#[verifier::external_body]
fn graphemes<'a>(text: &'a str, extended: bool) -> (clusters: Vec<&'a str>)
    ensures
        contents(clusters@) == grapheme_clusters(text@, extended),
        partitions(contents(clusters@), text@),
{
    text.graphemes(extended).collect()
}

/// There are no more parts than there are characters in the whole.
proof fn lemma_parts_are_no_more_than_characters(parts: Seq<Seq<char>>)
    requires
        forall|i: int| 0 <= i < parts.len() ==> (#[trigger] parts[i]).len() > 0,
    ensures
        parts.len() <= parts.flatten().len(),
    decreases parts.len(),
{
    if parts.len() > 0 {
        lemma_parts_are_no_more_than_characters(parts.drop_first());
    }
}

/// Counts the user-perceived characters of `text`. There are never more of
/// them than `text` has characters, and there is at least one unless `text`
/// is empty.
pub fn count_graphemes(text: &str) -> (count: usize)
    ensures
        count == grapheme_count(text@),
        count <= text@.len(),
        count == 0 <==> text@.len() == 0,
{
    let clusters = graphemes(text, true);
    proof {
        lemma_parts_are_no_more_than_characters(contents(clusters@));
    }
    clusters.len()
}

} // verus!
