//! A borrowed, non-empty string slice that represents legible text.

use vstd::prelude::*;

use crate::grapheme::Grapheme;
use crate::text::{has_text, is_legible_cluster, is_legible_text};
use crate::tstring::TString;
use crate::unicode::graphemes_of;

verus! {

/// A grapheme cluster known to be legible: a lone private-use code
/// point, or a cluster with non-zero display width.
#[derive(Clone, Copy, Debug)]
pub struct TGrapheme<'t> {
    text: Grapheme<'t>,
}

impl<'t> View for TGrapheme<'t> {
    type V = Seq<char>;

    closed spec fn view(&self) -> Seq<char> {
        self.text@
    }
}

impl<'t> TGrapheme<'t> {
    #[verifier::type_invariant]
    spec fn wf(self) -> bool {
        is_legible_cluster(self.text@)
    }

    /// Reinterprets a grapheme cluster already known to be legible; the
    /// precondition is the caller's responsibility.
    pub fn from_grapheme_unchecked(grapheme: Grapheme<'t>) -> (r: Self)
        requires
            is_legible_cluster(grapheme@),
        ensures
            r@ == grapheme@,
    {
        TGrapheme { text: grapheme }
    }

    /// Validates that the cluster is legible; on failure the cluster is
    /// returned unchanged.
    pub fn try_from_grapheme(grapheme: Grapheme<'t>) -> (r: Result<Self, Grapheme<'t>>)
        ensures
            match r {
                Ok(g) => is_legible_cluster(grapheme@) && g@ == grapheme@,
                Err(e) => !is_legible_cluster(grapheme@) && e@ == grapheme@,
            },
    {
        if grapheme.is_legible_text() {
            Ok(TGrapheme::from_grapheme_unchecked(grapheme))
        } else {
            Err(grapheme)
        }
    }

    /// The underlying grapheme cluster.
    pub fn as_grapheme(&self) -> (r: &Grapheme<'t>)
        ensures
            r@ == self@,
    {
        &self.text
    }
}

/// A borrowed string slice guaranteed to be non-empty and to contain
/// legible text. The invariant is checked once, at construction, and
/// holds for the lifetime of the view; the view never owns storage.
#[derive(Clone, Copy, Debug)]
pub struct TStr<'t> {
    text: &'t str,
}

impl<'t> View for TStr<'t> {
    type V = Seq<char>;

    closed spec fn view(&self) -> Seq<char> {
        self.text@
    }
}

impl<'t> TStr<'t> {
    #[verifier::type_invariant]
    spec fn wf(self) -> bool {
        self.text@.len() > 0 && is_legible_text(self.text@)
    }

    /// Reinterprets a string slice already known to be non-empty legible
    /// text, at no cost; the precondition is the caller's responsibility.
    pub fn from_str_unchecked(text: &'t str) -> (r: Self)
        requires
            text@.len() > 0,
            is_legible_text(text@),
        ensures
            r@ == text@,
    {
        TStr { text }
    }

    /// Validates the slice: succeeds exactly when it has legible text;
    /// on failure the rejected slice is returned unchanged.
    pub fn try_from_str(text: &'t str) -> (r: Result<Self, &'t str>)
        ensures
            match r {
                Ok(t) => is_legible_text(text@) && t@ == text@,
                Err(e) => !is_legible_text(text@) && e@ == text@,
            },
    {
        if has_text(text) {
            Ok(TStr::from_str_unchecked(text))
        } else {
            Err(text)
        }
    }

    /// Copies the view into an owned, validated buffer.
    pub fn into_tstring(&self) -> (r: TString)
        ensures
            r@ == self@,
    {
        proof {
            use_type_invariant(&*self);
        }
        TString::from_string_unchecked(String::from_str(self.text))
    }

    /// The grapheme clusters of the view, in order; there is always at
    /// least one, and concatenated in order they give back the view.
    pub fn graphemes(&self) -> (r: Vec<String>)
        ensures
            r@.len() == graphemes_of(self@).len(),
            r@.len() > 0,
            forall|i: int| 0 <= i < r@.len() ==> #[trigger] r@[i]@ == graphemes_of(self@)[i],
            graphemes_of(self@).flatten() == self@,
    {
        proof {
            use_type_invariant(&*self);
        }
        let clusters = crate::text::graphemes(self.text);
        proof {
            if graphemes_of(self.text@).len() == 0 {
                assert(graphemes_of(self.text@).flatten() =~= Seq::<char>::empty());
            }
        }
        clusters
    }

    /// The underlying string slice; always non-empty, always legible text.
    pub fn as_str(&self) -> (r: &'t str)
        ensures
            r@ == self@,
            r@.len() > 0,
            is_legible_text(r@),
    {
        proof {
            use_type_invariant(&*self);
        }
        self.text
    }
}

} // verus!
