//! A string slice or buffer that consists of exactly one grapheme cluster.

use vstd::prelude::*;

use crate::rune::RuneError;
use crate::text::{is_grapheme, is_legible_cluster, is_legible_cluster_str};
use crate::unicode::{char_is_private_use, char_private_use, graphemes_of};

verus! {

/// A borrowed, non-empty string slice known to be exactly one grapheme
/// cluster: what a user perceives as one character.
#[derive(Clone, Copy, Debug)]
pub struct Grapheme<'t> {
    text: &'t str,
}

impl<'t> View for Grapheme<'t> {
    type V = Seq<char>;

    closed spec fn view(&self) -> Seq<char> {
        self.text@
    }
}

impl<'t> Grapheme<'t> {
    #[verifier::type_invariant]
    spec fn wf(self) -> bool {
        &&& self.text@.len() > 0
        &&& graphemes_of(self.text@).len() == 1
        &&& graphemes_of(self.text@)[0] == self.text@
    }

    /// Reinterprets a string slice already known to be one grapheme
    /// cluster; the precondition is the caller's responsibility.
    pub fn from_str_unchecked(text: &'t str) -> (r: Self)
        requires
            text@.len() > 0,
            graphemes_of(text@).len() == 1,
            graphemes_of(text@)[0] == text@,
        ensures
            r@ == text@,
    {
        Grapheme { text }
    }

    /// Validates that the slice is exactly one grapheme cluster; on
    /// failure the error carries the input back unchanged.
    pub fn try_from_str(text: &'t str) -> (r: Result<Self, RuneError<&'t str>>)
        ensures
            match r {
                Ok(g) => graphemes_of(text@).len() == 1 && g@ == text@,
                Err(e) => graphemes_of(text@).len() != 1 && e.spec_invalid()@ == text@,
            },
    {
        if is_grapheme(text) {
            Ok(Grapheme::from_str_unchecked(text))
        } else {
            Err(RuneError::from_invalid(text))
        }
    }

    /// The cluster's single code point, when it consists of exactly one;
    /// `None` when the cluster spans several code points.
    pub fn to_char(&self) -> (r: Option<char>)
        ensures
            match r {
                Some(c) => self@.len() == 1 && c == self@[0],
                None => self@.len() != 1,
            },
    {
        let n = self.text.unicode_len();
        if n == 1 {
            Some(self.text.get_char(0))
        } else {
            None
        }
    }

    /// The underlying string slice; always non-empty and exactly one
    /// grapheme cluster.
    pub fn as_str(&self) -> (r: &'t str)
        ensures
            r@ == self@,
            r@.len() > 0,
            graphemes_of(r@).len() == 1,
            graphemes_of(r@)[0] == r@,
    {
        proof {
            use_type_invariant(&*self);
        }
        self.text
    }

    /// Whether this cluster counts as legible text: a lone private-use
    /// code point, or non-zero display width.
    pub fn is_legible_text(&self) -> (r: bool)
        ensures
            r == is_legible_cluster(self@),
    {
        is_legible_cluster_str(self.text)
    }

    /// Whether this cluster is exactly one code point of the private-use
    /// general category.
    pub fn is_private_use_character(&self) -> (r: bool)
        ensures
            r == (self@.len() == 1 && char_is_private_use(self@[0])),
    {
        match self.to_char() {
            Some(c) => char_private_use(c),
            None => false,
        }
    }

    /// Copies the cluster into an owned buffer.
    pub fn to_owned(&self) -> (r: GraphemeBuf)
        ensures
            r@ == self@,
    {
        proof {
            use_type_invariant(&*self);
        }
        GraphemeBuf::from_string_unchecked(String::from_str(self.text))
    }
}

/// An owned, non-empty string buffer known to be exactly one grapheme
/// cluster.
#[derive(Debug, Eq, Hash, PartialEq)]
pub struct GraphemeBuf {
    text: String,
}

impl View for GraphemeBuf {
    type V = Seq<char>;

    closed spec fn view(&self) -> Seq<char> {
        self.text@
    }
}

impl GraphemeBuf {
    #[verifier::type_invariant]
    spec fn wf(self) -> bool {
        &&& self.text@.len() > 0
        &&& graphemes_of(self.text@).len() == 1
        &&& graphemes_of(self.text@)[0] == self.text@
    }

    /// Reinterprets a string already known to be one grapheme cluster;
    /// the precondition is the caller's responsibility.
    pub fn from_string_unchecked(text: String) -> (r: Self)
        requires
            text@.len() > 0,
            graphemes_of(text@).len() == 1,
            graphemes_of(text@)[0] == text@,
        ensures
            r@ == text@,
    {
        GraphemeBuf { text }
    }

    /// Validates that the string is exactly one grapheme cluster; on
    /// failure the error carries the input back unchanged.
    pub fn try_from_string(text: String) -> (r: Result<Self, RuneError<String>>)
        ensures
            match r {
                Ok(g) => graphemes_of(text@).len() == 1 && g@ == text@,
                Err(e) => graphemes_of(text@).len() != 1 && e.spec_invalid()@ == text@,
            },
    {
        if is_grapheme(text.as_str()) {
            Ok(GraphemeBuf::from_string_unchecked(text))
        } else {
            Err(RuneError::from_invalid(text))
        }
    }

    /// Borrows the buffer as a grapheme cluster slice.
    pub fn as_grapheme(&self) -> (r: Grapheme<'_>)
        ensures
            r@ == self@,
    {
        proof {
            use_type_invariant(&*self);
        }
        Grapheme::from_str_unchecked(self.text.as_str())
    }

    /// The underlying string slice; always non-empty and exactly one
    /// grapheme cluster.
    pub fn as_str(&self) -> (r: &str)
        ensures
            r@ == self@,
            r@.len() > 0,
            graphemes_of(r@).len() == 1,
            graphemes_of(r@)[0] == r@,
    {
        proof {
            use_type_invariant(&*self);
        }
        self.text.as_str()
    }

    /// Consumes the buffer and returns the underlying string; always
    /// non-empty and exactly one grapheme cluster.
    pub fn into_string(self) -> (r: String)
        ensures
            r@ == self@,
            r@.len() > 0,
            graphemes_of(r@).len() == 1,
    {
        proof {
            use_type_invariant(&self);
        }
        self.text
    }
}

} // verus!
