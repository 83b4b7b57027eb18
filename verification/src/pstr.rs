//! A printable, non-empty borrowed string slice.
//!
//! "Printable" is the same invariant as the validated text view: non-empty
//! content with legible text. This view additionally exposes its display
//! width, which the invariant guarantees to be non-zero.

use vstd::prelude::*;

use crate::pstring::PString;
use crate::text::{has_text, is_legible_text};
use crate::unicode::{str_width, str_width_cjk, width_cjk_of, width_of};

verus! {

/// A borrowed string slice guaranteed to be non-empty and to contain
/// legible text, so its display width is never zero.
#[derive(Clone, Copy, Debug)]
pub struct PStr<'t> {
    text: &'t str,
}

impl<'t> View for PStr<'t> {
    type V = Seq<char>;

    closed spec fn view(&self) -> Seq<char> {
        self.text@
    }
}

impl<'t> PStr<'t> {
    #[verifier::type_invariant]
    spec fn wf(self) -> bool {
        self.text@.len() > 0 && is_legible_text(self.text@)
    }

    /// Reinterprets a string slice already known to be non-empty legible
    /// text, at no cost; the precondition is the caller's responsibility.
    pub fn from_str_unchecked(text: &'t str) -> (r: Self)
        requires
            text@.len() > 0,
            is_legible_text(text@),
        ensures
            r@ == text@,
    {
        PStr { text }
    }

    /// Validates the slice: succeeds exactly when it has legible text;
    /// on failure the rejected slice is returned unchanged.
    pub fn try_from_str(text: &'t str) -> (r: Result<Self, &'t str>)
        ensures
            match r {
                Ok(t) => is_legible_text(text@) && t@ == text@,
                Err(e) => !is_legible_text(text@) && e@ == text@,
            },
    {
        if has_text(text) {
            Ok(PStr::from_str_unchecked(text))
        } else {
            Err(text)
        }
    }

    /// Copies the view into an owned, validated buffer.
    pub fn into_pstring(&self) -> (r: PString)
        ensures
            r@ == self@,
    {
        proof {
            use_type_invariant(&*self);
        }
        PString::from_string_unchecked(String::from_str(self.text))
    }

    /// The display width of the view in columns; never zero, since the
    /// view contains legible text.
    pub fn width(&self) -> (r: usize)
        ensures
            r as nat == width_of(self@),
            r != 0,
    {
        proof {
            use_type_invariant(&*self);
        }
        str_width(self.text)
    }

    /// The display width of the view in columns with ambiguous-width
    /// characters counted as two columns, as recommended for CJK
    /// contexts.
    pub fn width_cjk(&self) -> (r: usize)
        ensures
            r as nat == width_cjk_of(self@),
    {
        str_width_cjk(self.text)
    }

    /// The underlying string slice; always non-empty, always legible text.
    pub fn as_str(&self) -> (r: &'t str)
        ensures
            r@ == self@,
            r@.len() > 0,
            is_legible_text(r@),
    {
        proof {
            use_type_invariant(&*self);
        }
        self.text
    }
}

} // verus!
