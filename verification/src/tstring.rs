//! An owned, non-empty string buffer that represents legible text, with
//! invariant-preserving suffix trimming.

use vstd::prelude::*;

use crate::grapheme::GraphemeBuf;
use crate::text::{has_text, is_legible_text};
use crate::tstr::TStr;
use crate::unicode::{graphemes_of, leak_string, split_last_grapheme};

verus! {

/// The outcome of one suffix-trim attempt on a [`TString`].
///
/// A trim is transactional: either the computed prefix still has legible
/// text and the buffer is truncated to it, with the removed unit handed
/// back (`Committed`), or the buffer is left untouched and the suffix
/// that could not legibly be removed is reported (`Rejected`). Rejection
/// is a normal outcome meaning "cannot legibly shrink further", not an
/// error.
pub enum Take<T> {
    /// The buffer was truncated; the removed unit is returned.
    Committed(T),
    /// The buffer is unchanged; the suffix that would have been removed
    /// is returned as a copy.
    Rejected(String),
}

impl<T> Take<T> {
    /// The removed unit, or `None` when the trim was rejected.
    pub fn or_none(self) -> (r: Option<T>)
        ensures
            match self {
                Take::Committed(t) => r == Some(t),
                Take::Rejected(_) => r is None,
            },
    {
        match self {
            Take::Committed(t) => Some(t),
            Take::Rejected(_) => None,
        }
    }

    /// The removed unit, or the caller's own error when the trim was
    /// rejected.
    pub fn or_else<E, F: FnOnce() -> E>(self, f: F) -> (r: Result<T, E>)
        requires
            self is Rejected ==> f.requires(()),
        ensures
            match self {
                Take::Committed(t) => r == Ok::<T, E>(t),
                Take::Rejected(_) => r is Err && f.ensures((), r->Err_0),
            },
    {
        match self {
            Take::Committed(t) => Ok(t),
            Take::Rejected(_) => Err(f()),
        }
    }

    /// Whether the trim was committed.
    pub fn or_false(self) -> (r: bool)
        ensures
            r == (self is Committed),
    {
        match self {
            Take::Committed(_) => true,
            Take::Rejected(_) => false,
        }
    }

    /// The removed unit, or the suffix that could not legibly be removed.
    pub fn or_get(self) -> (r: Result<T, String>)
        ensures
            match self {
                Take::Committed(t) => r == Ok::<T, String>(t),
                Take::Rejected(s) => r == Err::<T, String>(s),
            },
    {
        match self {
            Take::Committed(t) => Ok(t),
            Take::Rejected(s) => Err(s),
        }
    }
}

/// An owned string guaranteed to be non-empty and to contain legible
/// text. The only mutations are the suffix-trimming operations, which
/// re-establish the invariant before committing any change.
#[derive(Debug, Eq, Hash, PartialEq)]
pub struct TString {
    text: String,
}

impl View for TString {
    type V = Seq<char>;

    closed spec fn view(&self) -> Seq<char> {
        self.text@
    }
}

impl TString {
    #[verifier::type_invariant]
    spec fn wf(self) -> bool {
        self.text@.len() > 0 && is_legible_text(self.text@)
    }

    /// Reinterprets a string already known to be non-empty legible text;
    /// the precondition is the caller's responsibility.
    pub fn from_string_unchecked(text: String) -> (r: Self)
        requires
            text@.len() > 0,
            is_legible_text(text@),
        ensures
            r@ == text@,
    {
        TString { text }
    }

    /// Validates an owned string: succeeds exactly when it has legible
    /// text; on failure the rejected string is returned unchanged.
    pub fn try_from_string(text: String) -> (r: Result<Self, String>)
        ensures
            match r {
                Ok(t) => is_legible_text(text@) && t@ == text@,
                Err(e) => !is_legible_text(text@) && e@ == text@,
            },
    {
        if has_text(text.as_str()) {
            Ok(TString::from_string_unchecked(text))
        } else {
            Err(text)
        }
    }

    /// Validates a borrowed string and copies it into an owned buffer on
    /// success; on failure the rejected slice is returned unchanged.
    pub fn try_from_str<'t>(text: &'t str) -> (r: Result<Self, &'t str>)
        ensures
            match r {
                Ok(t) => is_legible_text(text@) && t@ == text@,
                Err(e) => !is_legible_text(text@) && e@ == text@,
            },
    {
        if has_text(text) {
            Ok(TString::from_string_unchecked(String::from_str(text)))
        } else {
            Err(text)
        }
    }

    /// Attempts to remove the last code point. The trim commits exactly
    /// when the remaining prefix still has legible text; otherwise the
    /// buffer is unchanged and the trailing code point is reported.
    /// Whatever the outcome, the buffer keeps legible text, and on commit
    /// the removed code point appended to the new contents reconstructs
    /// the old contents exactly.
    pub fn pop_char(&mut self) -> (r: Take<char>)
        ensures
            match r {
                Take::Committed(c) => {
                    &&& is_legible_text(old(self)@.drop_last())
                    &&& final(self)@ == old(self)@.drop_last()
                    &&& c == old(self)@.last()
                    &&& old(self)@ == final(self)@.push(c)
                    &&& final(self)@.len() < old(self)@.len()
                    &&& is_legible_text(final(self)@)
                },
                Take::Rejected(s) => {
                    &&& !is_legible_text(old(self)@.drop_last())
                    &&& final(self)@ == old(self)@
                    &&& s@ == seq![old(self)@.last()]
                },
            },
    {
        proof {
            use_type_invariant(&*self);
        }
        let n = self.text.as_str().unicode_len();
        let prefix_slice = self.text.as_str().substring_char(0, n - 1);
        proof {
            assert(prefix_slice@ =~= self.text@.drop_last());
        }
        if has_text(prefix_slice) {
            let c = self.text.as_str().get_char(n - 1);
            let prefix = String::from_str(prefix_slice);
            self.text = prefix;
            proof {
                assert(old(self)@ =~= final(self)@.push(c));
            }
            Take::Committed(c)
        } else {
            let suffix_slice = self.text.as_str().substring_char(n - 1, n);
            proof {
                assert(suffix_slice@ =~= seq![self.text@.last()]);
            }
            Take::Rejected(String::from_str(suffix_slice))
        }
    }

    /// Attempts to remove the last grapheme cluster, treated as atomic.
    /// The trim commits exactly when the prefix before the last cluster
    /// still has legible text; otherwise the buffer is unchanged and the
    /// cluster is reported. Whatever the outcome, the buffer keeps
    /// legible text, and on commit the removed cluster appended to the
    /// new contents reconstructs the old contents exactly.
    pub fn pop_grapheme(&mut self) -> (r: Take<GraphemeBuf>)
        ensures
            match r {
                Take::Committed(g) => {
                    &&& is_legible_text(graphemes_of(old(self)@).drop_last().flatten())
                    &&& final(self)@ == graphemes_of(old(self)@).drop_last().flatten()
                    &&& g@ == graphemes_of(old(self)@).last()
                    &&& old(self)@ == final(self)@ + g@
                    &&& final(self)@.len() < old(self)@.len()
                    &&& is_legible_text(final(self)@)
                },
                Take::Rejected(s) => {
                    &&& !is_legible_text(graphemes_of(old(self)@).drop_last().flatten())
                    &&& final(self)@ == old(self)@
                    &&& s@ == graphemes_of(old(self)@).last()
                },
            },
    {
        proof {
            use_type_invariant(&*self);
        }
        let (prefix, last) = split_last_grapheme(self.text.as_str());
        if has_text(prefix.as_str()) {
            self.text = prefix;
            Take::Committed(GraphemeBuf::from_string_unchecked(last))
        } else {
            Take::Rejected(last)
        }
    }

    /// Leaks the buffer's storage and returns a view of it that lives
    /// for the rest of the program.
    pub fn leak(self) -> (r: TStr<'static>)
        ensures
            r@ == self@,
    {
        proof {
            use_type_invariant(&self);
        }
        let TString { text } = self;
        TStr::from_str_unchecked(leak_string(text))
    }

    /// Borrows the buffer as a validated view.
    pub fn as_tstr(&self) -> (r: TStr<'_>)
        ensures
            r@ == self@,
    {
        proof {
            use_type_invariant(&*self);
        }
        TStr::from_str_unchecked(self.text.as_str())
    }

    /// The underlying string slice; always non-empty, always legible text.
    pub fn as_str(&self) -> (r: &str)
        ensures
            r@ == self@,
            r@.len() > 0,
            is_legible_text(r@),
    {
        proof {
            use_type_invariant(&*self);
        }
        self.text.as_str()
    }

    /// Consumes the buffer and returns the underlying string; always
    /// non-empty, always legible text.
    pub fn into_string(self) -> (r: String)
        ensures
            r@ == self@,
            r@.len() > 0,
            is_legible_text(r@),
    {
        proof {
            use_type_invariant(&self);
        }
        let TString { text } = self;
        text
    }
}

} // verus!
