//! Errors arising while managing a PostgreSQL cluster.

use vstd::prelude::*;
use vstd::string::StringExecFns;

use crate::lock::LockError;
use crate::util::{int_str, push_i32};
use crate::runtime::RuntimeError;
use crate::version::{PartialVersion, Version, VersionError};

verus! {

/// Error while creating, inspecting, starting, stopping, or destroying
/// a cluster.
#[derive(Clone, Debug, PartialEq)]
pub enum ClusterError {
    /// A path was not valid UTF-8.
    PathEncodingError,
    /// An input/output failure, carrying the raw OS error number.
    IoError(i32),
    /// A UNIX-level failure, carrying the raw OS error number.
    UnixError(i32),
    /// The status probe's exit cannot be interpreted for this version of
    /// PostgreSQL at all.
    UnsupportedVersion(Version),
    /// The cluster's version could not be understood.
    UnknownVersion(VersionError),
    /// No runtime compatible with the cluster's version was found.
    RuntimeNotFound(PartialVersion),
    /// No runtime was found at all.
    RuntimeDefaultNotFound,
    /// The data directory was not found here.
    DataDirectoryNotFound(String),
    /// The database server reported an error, described by this message.
    DatabaseError(String),
    /// The cluster is already in use: a lower-level exclusivity signal
    /// said someone else is working on it.
    InUse,
    /// The status probe ended in a way this implementation does not know
    /// how to interpret: it carries the raw exit code, or `None` when
    /// the probe was killed by a signal. Never guessed at, always
    /// surfaced.
    IndeterminateState(Option<i32>),
}

impl ClusterError {
    /// The message this error renders to.
    pub open spec fn spec_text(self) -> Seq<char> {
        match self {
            ClusterError::PathEncodingError => "path is not UTF-8"@,
            ClusterError::IoError(errno) => "input/output error: errno "@ + int_str(errno as int),
            ClusterError::UnixError(errno) => "UNIX error: errno "@ + int_str(errno as int),
            ClusterError::UnsupportedVersion(v) => "PostgreSQL version not supported: "@
                + v.spec_text(),
            ClusterError::UnknownVersion(VersionError::BadlyFormed) => "PostgreSQL version not known: "@
                + "badly formed"@,
            ClusterError::UnknownVersion(VersionError::Missing) => "PostgreSQL version not known: "@
                + "not found"@,
            ClusterError::RuntimeNotFound(v) => "PostgreSQL runtime not found for version "@
                + v.spec_text(),
            ClusterError::RuntimeDefaultNotFound => "PostgreSQL runtime not found"@,
            ClusterError::DataDirectoryNotFound(p) => "data directory not found in "@ + p@,
            ClusterError::DatabaseError(m) => "database error: "@ + m@,
            ClusterError::InUse => "cluster in use; cannot lock exclusively"@,
            ClusterError::IndeterminateState(None) => "cluster state indeterminate: status probe was killed by a signal"@,
            ClusterError::IndeterminateState(Some(code)) => "cluster state indeterminate: status probe exited with code "@
                + int_str(code as int),
        }
    }

    /// A human-readable description of this error.
    pub fn describe(&self) -> (r: String)
        ensures
            r@ == self.spec_text(),
    {
        match self {
            ClusterError::PathEncodingError => String::from_str("path is not UTF-8"),
            ClusterError::IoError(errno) => {
                let mut out = String::from_str("input/output error: errno ");
                push_i32(&mut out, *errno);
                out
            },
            ClusterError::UnixError(errno) => {
                let mut out = String::from_str("UNIX error: errno ");
                push_i32(&mut out, *errno);
                out
            },
            ClusterError::UnsupportedVersion(v) => {
                let mut out = String::from_str("PostgreSQL version not supported: ");
                let text = v.to_text();
                out.append(text.as_str());
                out
            },
            ClusterError::UnknownVersion(e) => {
                let mut out = String::from_str("PostgreSQL version not known: ");
                out.append(e.describe());
                out
            },
            ClusterError::RuntimeNotFound(v) => {
                let mut out = String::from_str("PostgreSQL runtime not found for version ");
                let text = v.to_text();
                out.append(text.as_str());
                out
            },
            ClusterError::RuntimeDefaultNotFound => String::from_str(
                "PostgreSQL runtime not found",
            ),
            ClusterError::DataDirectoryNotFound(p) => {
                let mut out = String::from_str("data directory not found in ");
                out.append(p.as_str());
                out
            },
            ClusterError::DatabaseError(m) => {
                let mut out = String::from_str("database error: ");
                out.append(m.as_str());
                out
            },
            ClusterError::InUse => String::from_str("cluster in use; cannot lock exclusively"),
            ClusterError::IndeterminateState(None) => String::from_str(
                "cluster state indeterminate: status probe was killed by a signal",
            ),
            ClusterError::IndeterminateState(Some(code)) => {
                let mut out = String::from_str(
                    "cluster state indeterminate: status probe exited with code ",
                );
                push_i32(&mut out, *code);
                out
            },
        }
    }
}

impl From<LockError> for ClusterError {
    /// A lock failure maps to [`ClusterError::UnixError`] with the same
    /// error number.
    fn from(error: LockError) -> (r: ClusterError) {
        ClusterError::UnixError(error.errno)
    }
}

impl vstd::std_specs::convert::FromSpecImpl<LockError> for ClusterError {
    open spec fn obeys_from_spec() -> bool {
        true
    }

    open spec fn from_spec(error: LockError) -> ClusterError {
        ClusterError::UnixError(error.errno)
    }
}

impl From<VersionError> for ClusterError {
    /// A version parse failure maps to [`ClusterError::UnknownVersion`].
    fn from(error: VersionError) -> (r: ClusterError) {
        ClusterError::UnknownVersion(error)
    }
}

impl vstd::std_specs::convert::FromSpecImpl<VersionError> for ClusterError {
    open spec fn obeys_from_spec() -> bool {
        true
    }

    open spec fn from_spec(error: VersionError) -> ClusterError {
        ClusterError::UnknownVersion(error)
    }
}

impl From<RuntimeError> for ClusterError {
    /// Runtime errors map onto the matching cluster error.
    fn from(error: RuntimeError) -> (r: ClusterError) {
        match error {
            RuntimeError::IoError(errno) => ClusterError::IoError(errno),
            RuntimeError::UnknownVersion(e) => ClusterError::UnknownVersion(e),
        }
    }
}

impl vstd::std_specs::convert::FromSpecImpl<RuntimeError> for ClusterError {
    open spec fn obeys_from_spec() -> bool {
        true
    }

    open spec fn from_spec(error: RuntimeError) -> ClusterError {
        match error {
            RuntimeError::IoError(errno) => ClusterError::IoError(errno),
            RuntimeError::UnknownVersion(e) => ClusterError::UnknownVersion(e),
        }
    }
}

} // verus!
