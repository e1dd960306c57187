//! Errors arising while discovering or probing a PostgreSQL runtime.

use vstd::prelude::*;
use vstd::string::StringExecFns;

use crate::util::{int_str, push_i32};
use crate::version::VersionError;

verus! {

/// Error discovering or probing a PostgreSQL runtime.
#[derive(Clone, Copy, Debug, PartialEq, Eq, Structural)]
pub enum RuntimeError {
    /// An input/output failure, carrying the raw OS error number.
    IoError(i32),
    /// The runtime's reported version could not be understood.
    UnknownVersion(VersionError),
}

impl RuntimeError {
    /// The message this error renders to.
    pub open spec fn spec_text(self) -> Seq<char> {
        match self {
            RuntimeError::IoError(errno) => "input/output error: errno "@ + int_str(errno as int),
            RuntimeError::UnknownVersion(VersionError::BadlyFormed) => "PostgreSQL version not known: "@
                + "badly formed"@,
            RuntimeError::UnknownVersion(VersionError::Missing) => "PostgreSQL version not known: "@
                + "not found"@,
        }
    }

    /// A human-readable description of this error.
    pub fn describe(&self) -> (r: String)
        ensures
            r@ == self.spec_text(),
    {
        match self {
            RuntimeError::IoError(errno) => {
                let mut out = String::from_str("input/output error: errno ");
                push_i32(&mut out, *errno);
                out
            },
            RuntimeError::UnknownVersion(e) => {
                let mut out = String::from_str("PostgreSQL version not known: ");
                out.append(e.describe());
                out
            },
        }
    }
}

} // verus!
