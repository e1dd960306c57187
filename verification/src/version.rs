//! Parse PostgreSQL version numbers.
//!
//! PostgreSQL's versioning scheme changed at PostgreSQL 10: before it, a
//! release was numbered major.point.minor, e.g. 9.6.17; from 10 onwards a
//! release is numbered major.minor, e.g. 14.2. Every pre-10 version sorts
//! below every post-10 version.

pub mod error;
pub mod partial;
pub mod scan;

pub use error::Error;
pub use error::Error as VersionError;
pub use partial::PartialVersion;

use vstd::prelude::*;
use vstd::string::StringExecFns;
use vstd::string::StrSliceExecFns;
use vstd::string::StringSliceAdditionalSpecFns;

use crate::util::{dec_str, push_u32};
use crate::version::scan::{find_captures, spec_find_captures};

verus! {

/// A fully-specified PostgreSQL version.
#[derive(Clone, Copy, Debug, PartialEq, Eq, Hash, PartialOrd, Ord, Structural)]
pub enum Version {
    /// Pre-PostgreSQL 10, with major, point, and minor numbers, e.g. 9.6.17.
    Pre10(u32, u32, u32),
    /// PostgreSQL 10 and onwards, with major and minor numbers, e.g. 14.2.
    Post10(u32, u32),
}

impl Version {
    /// A lexicographic sort key: pre-10 versions sort below post-10
    /// versions, and within an era the numeric components decide.
    pub open spec fn spec_key(self) -> (int, int, int, int) {
        match self {
            Version::Pre10(a, b, c) => (0int, a as int, b as int, c as int),
            Version::Post10(a, b) => (1int, a as int, b as int, 0int),
        }
    }

    /// Does `self` sort at or below `other`?
    pub open spec fn spec_le(self, other: Version) -> bool {
        let (s0, s1, s2, s3) = self.spec_key();
        let (o0, o1, o2, o3) = other.spec_key();
        if s0 != o0 {
            s0 < o0
        } else if s1 != o1 {
            s1 < o1
        } else if s2 != o2 {
            s2 < o2
        } else {
            s3 <= o3
        }
    }

    /// Does `self` sort at or below `other`? This is the order that a
    /// derived comparison also gives: variant first, components after.
    pub fn le(&self, other: &Version) -> (r: bool)
        ensures
            r == self.spec_le(*other),
    {
        match (self, other) {
            (Version::Pre10(a, b, c), Version::Pre10(x, y, z)) => {
                if a != x {
                    a < x
                } else if b != y {
                    b < y
                } else {
                    c <= z
                }
            },
            (Version::Pre10(_, _, _), Version::Post10(_, _)) => true,
            (Version::Post10(_, _), Version::Pre10(_, _, _)) => false,
            (Version::Post10(a, b), Version::Post10(x, y)) => {
                if a != x {
                    a < x
                } else {
                    b <= y
                }
            },
        }
    }

    /// The text this version renders to: its numbers separated by dots.
    pub open spec fn spec_text(self) -> Seq<char> {
        match self {
            Version::Pre10(a, b, c) => dec_str(a as nat) + seq!['.'] + dec_str(b as nat)
                + seq!['.'] + dec_str(c as nat),
            Version::Post10(a, b) => dec_str(a as nat) + seq!['.'] + dec_str(b as nat),
        }
    }

    /// Render this version as text, e.g. `9.6.17` or `14.2`.
    pub fn to_text(&self) -> (r: String)
        ensures
            r@ == self.spec_text(),
    {
        let mut out = String::new();
        proof {
            reveal_strlit(".");
        }
        match *self {
            Version::Pre10(a, b, c) => {
                push_u32(&mut out, a);
                out.append(".");
                push_u32(&mut out, b);
                out.append(".");
                push_u32(&mut out, c);
            },
            Version::Post10(a, b) => {
                push_u32(&mut out, a);
                out.append(".");
                push_u32(&mut out, b);
            },
        }
        proof {
            assert(out@ =~= self.spec_text());
        }
        out
    }

    /// The order [`Version::spec_le`] describes is total.
    pub proof fn lemma_le_total(a: Version, b: Version)
        ensures
            a.spec_le(b) || b.spec_le(a),
    {
    }

    /// The order [`Version::spec_le`] describes is transitive.
    pub proof fn lemma_le_trans(a: Version, b: Version, c: Version)
        requires
            a.spec_le(b),
            b.spec_le(c),
        ensures
            a.spec_le(c),
    {
    }

    /// What parsing yields for given scanned components: a pre-10 version
    /// needs all three numbers, a post-10 version exactly two.
    pub open spec fn spec_from_captures(
        caps: Option<(Option<u32>, Option<u32>, Option<u32>)>,
    ) -> Result<Version, Error> {
        match caps {
            Option::None => Result::Err(Error::Missing),
            Option::Some(parts) => match parts {
                (Option::Some(a), Option::Some(b), Option::Some(c)) if a < 10 => Result::Ok(
                    Version::Pre10(a, b, c),
                ),
                (Option::Some(a), Option::Some(b), Option::None) if a >= 10 => Result::Ok(
                    Version::Post10(a, b),
                ),
                _ => Result::Err(Error::BadlyFormed),
            },
        }
    }

    /// What parsing yields for given text, over its UTF-8 bytes.
    pub open spec fn spec_parse(bytes: Seq<u8>) -> Result<Version, Error> {
        Version::spec_from_captures(spec_find_captures(bytes))
    }

    /// Parse a version number out of `text`, which may hold surrounding
    /// words, e.g. `pg_ctl (PostgreSQL) 12.2`.
    pub fn parse(text: &str) -> (r: Result<Version, Error>)
        ensures
            r == Version::spec_parse(text.spec_bytes()),
    {
        let bytes = text.as_bytes_vec();
        match find_captures(&bytes) {
            Option::None => Result::Err(Error::Missing),
            Option::Some(parts) => match parts {
                (Option::Some(a), Option::Some(b), Option::Some(c)) if a < 10 => Result::Ok(
                    Version::Pre10(a, b, c),
                ),
                (Option::Some(a), Option::Some(b), Option::None) if a >= 10 => Result::Ok(
                    Version::Post10(a, b),
                ),
                _ => Result::Err(Error::BadlyFormed),
            },
        }
    }
}

impl core::str::FromStr for Version {
    type Err = Error;

    /// See [`Version::parse`].
    fn from_str(s: &str) -> Result<Version, Error> {
        Version::parse(s)
    }
}

} // verus!
