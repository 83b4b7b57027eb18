//! The trusted boundary to the Unicode data crates.
//!
//! Display width and grapheme-cluster segmentation are pure functions of a
//! string's characters, but their full definitions span the Unicode width
//! tables and the UAX #29 segmentation rules. Instead of restating those
//! tables, this module gives each result a name (`width_of`, `width_cjk_of`,
//! `graphemes_of`) and states beside the name only the short facts the rest
//! of the library needs, each taken from the relied-upon crate's
//! documentation. Everything outside this module is verified against these
//! contracts.

use vstd::prelude::*;

verus! {

/// The display width in columns of a string's characters, per the
/// East-Asian-width-aware tables of the `unicode-width` crate
/// (ambiguous-width characters counted as one column).
pub uninterp spec fn width_of(s: Seq<char>) -> nat;

/// The display width in columns of a string's characters with
/// ambiguous-width characters counted as two columns, as recommended
/// for CJK contexts.
pub uninterp spec fn width_cjk_of(s: Seq<char>) -> nat;

/// The partition of a string's characters into extended grapheme
/// clusters, in order, per the default Unicode segmentation algorithm
/// (UAX #29) as implemented by the `unicode-segmentation` crate.
pub uninterp spec fn graphemes_of(s: Seq<char>) -> Seq<Seq<char>>;

/// A code point lies in one of the three Unicode private-use ranges
/// (the `Co` general category: U+E000..=U+F8FF, U+F0000..=U+FFFFD,
/// U+100000..=U+10FFFD).
pub open spec fn char_is_private_use(c: char) -> bool {
    ||| 0xE000 <= c as u32 <= 0xF8FF
    ||| 0xF0000 <= c as u32 <= 0xFFFFD
    ||| 0x100000 <= c as u32 <= 0x10FFFD
}

/// Relies on `unicode_width::UnicodeWidthStr::width`: the displayed width
/// of a string in columns, a function of its characters alone; an empty
/// string has width zero (the width is a sum over an empty sequence of
/// characters and ligatures).
#[verifier::external_body]
pub(crate) fn str_width(s: &str) -> (r: usize)
    ensures
        r as nat == width_of(s@),
        s@.len() == 0 ==> r == 0,
{
    unicode_width::UnicodeWidthStr::width(s)
}

/// Relies on `unicode_width::UnicodeWidthStr::width_cjk`: as `width`, but
/// counting ambiguous-width characters as two columns.
#[verifier::external_body]
pub(crate) fn str_width_cjk(s: &str) -> (r: usize)
    ensures
        r as nat == width_cjk_of(s@),
        s@.len() == 0 ==> r == 0,
{
    unicode_width::UnicodeWidthStr::width_cjk(s)
}

/// Relies on `unicode_properties::UnicodeGeneralCategory::general_category`:
/// the general category of a code point is `PrivateUse` exactly on the three
/// private-use ranges listed in the crate's category tables, which are the
/// ranges of `char_is_private_use`.
#[verifier::external_body]
pub(crate) fn char_private_use(c: char) -> (r: bool)
    ensures
        r == char_is_private_use(c),
{
    matches!(
        unicode_properties::UnicodeGeneralCategory::general_category(c),
        unicode_properties::GeneralCategory::PrivateUse
    )
}

/// Relies on `unicode_segmentation::UnicodeSegmentation::graphemes` (with
/// extended clusters selected): it yields the grapheme clusters of the
/// string, in order, as consecutive non-empty substrings that exactly cover
/// the string.
#[verifier::external_body]
pub(crate) fn grapheme_clusters(s: &str) -> (r: Vec<String>)
    ensures
        r@.len() == graphemes_of(s@).len(),
        forall|i: int| 0 <= i < r@.len() ==> #[trigger] r@[i]@ == graphemes_of(s@)[i],
        forall|i: int| 0 <= i < r@.len() ==> #[trigger] r@[i]@.len() > 0,
        r@.map_values(|t: String| t@).flatten() == s@,
{
    unicode_segmentation::UnicodeSegmentation::graphemes(s, true)
        .map(|g| g.to_string())
        .collect()
}

/// Relies on `unicode_segmentation::UnicodeSegmentation::grapheme_indices`
/// (with extended clusters selected) iterated from the back: the last item
/// is the byte offset and content of the last grapheme cluster, so the
/// string splits there into the concatenation of all earlier clusters and
/// the last cluster. A single cluster taken alone segments as itself: the
/// default boundary rules decide each boundary from the characters of the
/// cluster, so the returned suffix is one grapheme cluster.
#[verifier::external_body]
pub(crate) fn split_last_grapheme(s: &str) -> (r: (String, String))
    requires
        s@.len() > 0,
    ensures
        r.0@ + r.1@ == s@,
        r.0@ == graphemes_of(s@).drop_last().flatten(),
        r.1@ == graphemes_of(s@).last(),
        r.1@.len() > 0,
        graphemes_of(r.1@).len() == 1,
        graphemes_of(r.1@)[0] == r.1@,
{
    let (offset, _) = unicode_segmentation::UnicodeSegmentation::grapheme_indices(s, true)
        .next_back()
        .unwrap();
    (s[..offset].to_string(), s[offset..].to_string())
}

/// Relies on `alloc::string::String::leak`: the returned slice holds
/// exactly the string's contents.
#[verifier::external_body]
pub(crate) fn leak_string(s: String) -> (r: &'static str)
    ensures
        r@ == s@,
{
    s.leak()
}

} // verus!
