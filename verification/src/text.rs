//! The legibility classifier and the string-level text predicate.
//!
//! A grapheme cluster is legible when it is a lone private-use code point
//! or has non-zero display width; a string has text when its total display
//! width is non-zero and at least one of its grapheme clusters is legible.
//!
//! On private-use code points this library goes by the width tables it
//! links against, which report a non-zero width for them (they are
//! ambiguous-width characters, not zero-width ones). A string consisting
//! only of private-use content therefore passes the whole-string width
//! check on its own. The classifier's explicit exception for a lone
//! private-use cluster is kept regardless of the table values, since such
//! clusters are rendered with a visible glyph either way.

use vstd::prelude::*;

use crate::unicode::{
    char_is_private_use, char_private_use, grapheme_clusters, graphemes_of, str_width, width_of,
};

verus! {

/// One grapheme cluster counts as legible text: either it consists of
/// exactly one code point and that code point is private-use (such
/// clusters are typically rendered with a visible replacement glyph
/// even where the width tables report zero), or its display width is
/// non-zero.
pub open spec fn is_legible_cluster(g: Seq<char>) -> bool {
    ||| g.len() == 1 && char_is_private_use(g[0])
    ||| width_of(g) != 0
}

/// A whole string represents legible text: its total display width is
/// non-zero and at least one of its grapheme clusters is legible. The
/// width conjunct is global (one pass over the whole string), so a
/// zero-width legible cluster can satisfy the existence conjunct only
/// when some other content gives the string non-zero width.
pub open spec fn is_legible_text(s: Seq<char>) -> bool {
    &&& width_of(s) != 0
    &&& exists|i: int|
        0 <= i < graphemes_of(s).len() && is_legible_cluster(#[trigger] graphemes_of(s)[i])
}

/// A string has legible text exactly when its total display width is
/// non-zero and some grapheme cluster of it is legible, that is, the
/// cluster is a lone private-use code point or has non-zero display
/// width itself. The width conjunct is over the whole string, not per
/// cluster.
pub proof fn lemma_has_text_characterization(s: Seq<char>)
    ensures
        is_legible_text(s) <==> (width_of(s) != 0 && exists|i: int|
            0 <= i < graphemes_of(s).len() && ((#[trigger] graphemes_of(s)[i]).len() == 1
                && char_is_private_use(graphemes_of(s)[i][0])
                || width_of(graphemes_of(s)[i]) != 0)),
{
}

/// Whether one grapheme cluster, given as its own string, is legible.
pub fn is_legible_cluster_str(g: &str) -> (r: bool)
    ensures
        r == is_legible_cluster(g@),
{
    let n = g.unicode_len();
    if n == 1 {
        let c = g.get_char(0);
        if char_private_use(c) {
            return true;
        }
    }
    str_width(g) != 0
}

/// Whether the string has legible text: non-zero total display width and
/// at least one legible grapheme cluster. An empty string never has text.
pub fn has_text(s: &str) -> (r: bool)
    ensures
        r == is_legible_text(s@),
        s@.len() == 0 ==> !r,
{
    let width = str_width(s);
    if width == 0 {
        return false;
    }
    let clusters = grapheme_clusters(s);
    let n = clusters.len();
    let mut i: usize = 0;
    while i < n
        invariant
            s@.len() > 0,
            n == clusters.len(),
            i <= n,
            clusters@.len() == graphemes_of(s@).len(),
            forall|j: int| 0 <= j < n ==> #[trigger] clusters@[j]@ == graphemes_of(s@)[j],
            forall|j: int| 0 <= j < i ==> !is_legible_cluster(#[trigger] graphemes_of(s@)[j]),
            width as nat == width_of(s@),
            width != 0,
        decreases n - i,
    {
        if is_legible_cluster_str(clusters[i].as_str()) {
            return true;
        }
        i += 1;
    }
    false
}

/// Whether the string consists of exactly one grapheme cluster.
/// An empty string has no clusters at all, so it never qualifies.
pub fn is_grapheme(s: &str) -> (r: bool)
    ensures
        r == (graphemes_of(s@).len() == 1),
        r ==> s@.len() > 0 && graphemes_of(s@)[0] == s@,
{
    let clusters = grapheme_clusters(s);
    proof {
        if clusters@.len() == 1 {
            let m = clusters@.map_values(|t: String| t@);
            m.lemma_flatten_one_element();
        }
    }
    clusters.len() == 1
}

/// The grapheme clusters of the string, in order, each as an owned string.
/// Concatenated in order they give back the input, and none is empty.
pub fn graphemes(s: &str) -> (r: Vec<String>)
    ensures
        r@.len() == graphemes_of(s@).len(),
        forall|i: int| 0 <= i < r@.len() ==> #[trigger] r@[i]@ == graphemes_of(s@)[i],
        graphemes_of(s@).flatten() == s@,
        forall|i: int|
            0 <= i < graphemes_of(s@).len() ==> #[trigger] graphemes_of(s@)[i].len() > 0,
{
    let clusters = grapheme_clusters(s);
    proof {
        assert(graphemes_of(s@) =~= clusters@.map_values(|t: String| t@));
    }
    clusters
}

} // verus!
