//! A printable, non-empty owned string buffer.

use vstd::prelude::*;

use crate::pstr::PStr;
use crate::text::{has_text, is_legible_text};
use crate::unicode::leak_string;

verus! {

/// An owned string guaranteed to be non-empty and to contain legible
/// text, so its display width is never zero.
#[derive(Debug, Eq, Hash, PartialEq)]
pub struct PString {
    text: String,
}

impl View for PString {
    type V = Seq<char>;

    closed spec fn view(&self) -> Seq<char> {
        self.text@
    }
}

impl PString {
    #[verifier::type_invariant]
    spec fn wf(self) -> bool {
        self.text@.len() > 0 && is_legible_text(self.text@)
    }

    /// Reinterprets a string already known to be non-empty legible text;
    /// the precondition is the caller's responsibility.
    pub fn from_string_unchecked(text: String) -> (r: Self)
        requires
            text@.len() > 0,
            is_legible_text(text@),
        ensures
            r@ == text@,
    {
        PString { text }
    }

    /// Validates an owned string: succeeds exactly when it has legible
    /// text; on failure the rejected string is returned unchanged.
    pub fn try_from_string(text: String) -> (r: Result<Self, String>)
        ensures
            match r {
                Ok(t) => is_legible_text(text@) && t@ == text@,
                Err(e) => !is_legible_text(text@) && e@ == text@,
            },
    {
        if has_text(text.as_str()) {
            Ok(PString::from_string_unchecked(text))
        } else {
            Err(text)
        }
    }

    /// Validates a borrowed string and copies it into an owned buffer on
    /// success; on failure the rejected slice is returned unchanged.
    pub fn try_from_str<'t>(text: &'t str) -> (r: Result<Self, &'t str>)
        ensures
            match r {
                Ok(t) => is_legible_text(text@) && t@ == text@,
                Err(e) => !is_legible_text(text@) && e@ == text@,
            },
    {
        if has_text(text) {
            Ok(PString::from_string_unchecked(String::from_str(text)))
        } else {
            Err(text)
        }
    }

    /// Leaks the buffer's storage and returns a view of it that lives
    /// for the rest of the program.
    pub fn leak(self) -> (r: PStr<'static>)
        ensures
            r@ == self@,
    {
        proof {
            use_type_invariant(&self);
        }
        let PString { text } = self;
        PStr::from_str_unchecked(leak_string(text))
    }

    /// Borrows the buffer as a validated view.
    pub fn as_pstr(&self) -> (r: PStr<'_>)
        ensures
            r@ == self@,
    {
        proof {
            use_type_invariant(&*self);
        }
        PStr::from_str_unchecked(self.text.as_str())
    }

    /// The underlying string slice; always non-empty, always legible text.
    pub fn as_str(&self) -> (r: &str)
        ensures
            r@ == self@,
            r@.len() > 0,
            is_legible_text(r@),
    {
        proof {
            use_type_invariant(&*self);
        }
        self.text.as_str()
    }

    /// Consumes the buffer and returns the underlying string; always
    /// non-empty, always legible text.
    pub fn into_string(self) -> (r: String)
        ensures
            r@ == self@,
            r@.len() > 0,
            is_legible_text(r@),
    {
        proof {
            use_type_invariant(&self);
        }
        let PString { text } = self;
        text
    }
}

} // verus!
