//! Errors arising from reading a PostgreSQL version number.

use vstd::prelude::*;

verus! {

/// Error parsing a PostgreSQL version number.
#[derive(Clone, Copy, Debug, PartialEq, Eq, Structural)]
pub enum Error {
    /// A version number was found but it does not have an acceptable shape,
    /// e.g. a pre-10 version without a minor number, or a component that
    /// does not fit in `u32`.
    BadlyFormed,
    /// No version number was found at all.
    Missing,
}

impl Error {
    /// A short human-readable description of this error.
    pub fn describe(&self) -> (r: &'static str)
        ensures
            *self is BadlyFormed ==> r@ == "badly formed"@,
            *self is Missing ==> r@ == "not found"@,
    {
        match self {
            Error::BadlyFormed => "badly formed",
            Error::Missing => "not found",
        }
    }
}

} // verus!
