//! The error carried back when input is not a valid code point, character,
//! or grapheme cluster.

use vstd::prelude::*;

verus! {

/// Rejection of input that does not form the expected textual unit. The
/// error owns the rejected input and always hands it back unchanged, so
/// callers can inspect or repair it and retry without any data loss.
#[derive(Clone, Copy, Debug, Eq, Hash, PartialEq)]
pub struct RuneError<T> {
    invalid: T,
}

impl<T> RuneError<T> {
    /// The rejected value this error carries.
    pub closed spec fn spec_invalid(self) -> T {
        self.invalid
    }

    pub(crate) fn from_invalid(invalid: T) -> (r: Self)
        ensures
            r.spec_invalid() == invalid,
    {
        RuneError { invalid }
    }

    /// Consumes the error and returns the rejected value unchanged.
    pub fn into_invalid(self) -> (r: T)
        ensures
            r == self.spec_invalid(),
    {
        self.invalid
    }

    /// Splits the error into the rejected value and a unit-valued error.
    pub fn take(self) -> (r: (T, RuneError<()>))
        ensures
            r.0 == self.spec_invalid(),
    {
        (self.invalid, RuneError { invalid: () })
    }

    /// Discards the rejected value, keeping only the fact of rejection.
    pub fn take_and_drop(self) -> (r: RuneError<()>)
        ensures
            r.spec_invalid() == (),
    {
        RuneError { invalid: () }
    }

    /// Borrows the rejected value.
    pub fn as_invalid(&self) -> (r: &T)
        ensures
            *r == self.spec_invalid(),
    {
        &self.invalid
    }

    /// Fixed description of the error, suitable for display to a user.
    pub fn message(&self) -> (r: &'static str)
        ensures
            r@ == "encountered an invalid code point, character, or grapheme cluster"@,
    {
        "encountered an invalid code point, character, or grapheme cluster"
    }
}

impl<'t> RuneError<&'t str> {
    /// Copies the borrowed rejected value into an owning error.
    pub fn into_owning(self) -> (r: RuneError<String>)
        ensures
            r.spec_invalid()@ == self.spec_invalid()@,
    {
        RuneError { invalid: String::from_str(self.invalid) }
    }
}

} // verus!
