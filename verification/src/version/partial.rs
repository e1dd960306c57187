//! Partially-specified PostgreSQL versions.

use vstd::prelude::*;
use vstd::string::StringExecFns;
use vstd::string::StrSliceExecFns;
use vstd::string::StringSliceAdditionalSpecFns;

use core::cmp::Ordering;

use crate::util::{dec_str, push_u32};
use crate::version::error::Error;
use crate::version::scan::{find_captures, spec_find_captures};
use crate::version::Version;

verus! {

/// A PostgreSQL version with some parts missing. This is the kind of
/// thing found in a cluster's `PG_VERSION` file.
#[derive(Clone, Copy, Debug)]
pub enum PartialVersion {
    /// Pre-PostgreSQL 10, with major and minor version numbers, e.g. 9.6.
    /// It is an error to create this variant with a major number >= 10;
    /// see [`checked`][`Self::checked`] for a way to guard against this.
    Pre10m(u32, u32),
    /// Pre-PostgreSQL 10, with major, minor, and patch version numbers,
    /// e.g. 9.6.17. It is an error to create this variant with a major
    /// number >= 10; see [`checked`][`Self::checked`].
    Pre10mm(u32, u32, u32),
    /// PostgreSQL 10+, with major version number, e.g. 10. It is an error
    /// to create this variant with a major number < 10; see
    /// [`checked`][`Self::checked`].
    Post10m(u32),
    /// PostgreSQL 10+, with major and minor version number, e.g. 10.3. It
    /// is an error to create this variant with a major number < 10; see
    /// [`checked`][`Self::checked`].
    Post10mm(u32, u32),
}

/// Compare two pairs lexicographically.
pub open spec fn spec_cmp2(a: int, b: int, x: int, y: int) -> Ordering {
    if a < x {
        Ordering::Less
    } else if a > x {
        Ordering::Greater
    } else if b < y {
        Ordering::Less
    } else if b > y {
        Ordering::Greater
    } else {
        Ordering::Equal
    }
}

/// Compare two triples lexicographically.
pub open spec fn spec_cmp3(a: int, b: int, c: int, x: int, y: int, z: int) -> Ordering {
    if a != x || b != y {
        spec_cmp2(a, b, x, y)
    } else if c < z {
        Ordering::Less
    } else if c > z {
        Ordering::Greater
    } else {
        Ordering::Equal
    }
}

impl PartialVersion {
    /// Does the variant agree with its major number: pre-10 variants must
    /// have a major number below 10, post-10 variants one of at least 10?
    pub open spec fn spec_valid(self) -> bool {
        match self {
            PartialVersion::Pre10m(a, _) => a < 10,
            PartialVersion::Pre10mm(a, _, _) => a < 10,
            PartialVersion::Post10m(a) => a >= 10,
            PartialVersion::Post10mm(a, _) => a >= 10,
        }
    }

    /// Return self if it is a valid [`PartialVersion`].
    ///
    /// This can be necessary when a [`PartialVersion`] has been
    /// constructed directly with a major number that does not agree with
    /// the variant's era.
    pub fn checked(self) -> (r: Result<Self, Error>)
        ensures
            self.spec_valid() ==> r == Result::<Self, Error>::Ok(self),
            !self.spec_valid() ==> r == Result::<Self, Error>::Err(Error::BadlyFormed),
    {
        let major = match self {
            PartialVersion::Pre10m(a, ..) => a,
            PartialVersion::Pre10mm(a, ..) => a,
            PartialVersion::Post10m(a) => a,
            PartialVersion::Post10mm(a, ..) => a,
        };
        let pre10 = matches!(self, PartialVersion::Pre10m(..) | PartialVersion::Pre10mm(..));
        if pre10 == (major < 10) {
            Result::Ok(self)
        } else {
            Result::Err(Error::BadlyFormed)
        }
    }

    /// Is the given [`Version`] compatible with this [`PartialVersion`]:
    /// can a server of the given [`Version`] be used to run a cluster of
    /// this [`PartialVersion`]?
    ///
    /// For versions before 10 the major numbers must match exactly, and
    /// the given version's patch number must be at least this partial
    /// version's patch number (a missing patch number accepts any).
    ///
    /// From 10 onwards the major number must match exactly, and the given
    /// version's minor number must be at least this partial version's
    /// minor number (a missing minor number accepts any).
    pub open spec fn spec_compatible(self, version: Version) -> bool {
        match (self, version) {
            (PartialVersion::Pre10m(a, b), Version::Pre10(x, y, _)) => a == x && b == y,
            (PartialVersion::Pre10mm(a, b, c), Version::Pre10(x, y, z)) => a == x && b == y && c
                <= z,
            (PartialVersion::Post10m(a), Version::Post10(x, _)) => a == x,
            (PartialVersion::Post10mm(a, b), Version::Post10(x, y)) => a == x && b <= y,
            _ => false,
        }
    }

    /// See [`Self::spec_compatible`].
    pub fn compatible(&self, version: Version) -> (r: bool)
        ensures
            r == self.spec_compatible(version),
    {
        match (*self, version) {
            (PartialVersion::Pre10m(a, b), Version::Pre10(x, y, _)) => a == x && b == y,
            (PartialVersion::Pre10mm(a, b, c), Version::Pre10(x, y, z)) => a == x && b == y && c
                <= z,
            (PartialVersion::Post10m(a), Version::Post10(x, _)) => a == x,
            (PartialVersion::Post10mm(a, b), Version::Post10(x, y)) => a == x && b <= y,
            _ => false,
        }
    }

    /// The same version with its finest-grained number removed.
    pub open spec fn spec_widened(self) -> PartialVersion {
        match self {
            PartialVersion::Pre10mm(a, b, _) => PartialVersion::Pre10m(a, b),
            PartialVersion::Post10mm(a, _) => PartialVersion::Post10m(a),
            _ => self,
        }
    }

    /// Remove the minor/patch number.
    pub fn widened(&self) -> (r: PartialVersion)
        ensures
            r == self.spec_widened(),
    {
        match self {
            PartialVersion::Pre10mm(a, b, _) => PartialVersion::Pre10m(*a, *b),
            PartialVersion::Post10mm(a, _) => PartialVersion::Post10m(*a),
            _ => *self,
        }
    }

    /// The sort key that [`Self::sort_key`] returns.
    pub open spec fn spec_sort_key(self) -> (u32, Option<u32>, Option<u32>) {
        match self {
            PartialVersion::Pre10m(a, b) => (a, Option::Some(b), Option::None),
            PartialVersion::Pre10mm(a, b, c) => (a, Option::Some(b), Option::Some(c)),
            PartialVersion::Post10m(a) => (a, Option::None, Option::None),
            PartialVersion::Post10mm(a, b) => (a, Option::Some(b), Option::None),
        }
    }

    /// Provide a sort key that implements `Ord`.
    ///
    /// `PartialVersion` does not implement `Eq` or `Ord` because they
    /// would disagree with its `PartialEq` and `PartialOrd`
    /// implementations, so this function provides a sort key that can be
    /// used with sorting functions, e.g. `slice::sort_by_key`.
    pub fn sort_key(&self) -> (r: (u32, Option<u32>, Option<u32>))
        ensures
            r == self.spec_sort_key(),
    {
        match *self {
            PartialVersion::Pre10m(a, b) => (a, Option::Some(b), Option::None),
            PartialVersion::Pre10mm(a, b, c) => (a, Option::Some(b), Option::Some(c)),
            PartialVersion::Post10m(a) => (a, Option::None, Option::None),
            PartialVersion::Post10mm(a, b) => (a, Option::Some(b), Option::None),
        }
    }

    /// The order [`PartialOrd::partial_cmp`] decides: within an era,
    /// versions compare lexicographically on the numbers both sides have;
    /// across eras, every pre-10 version sorts below every post-10
    /// version. The order is total but not antisymmetric — e.g. 9.6 and
    /// 9.6.17 compare equal — which is why it is only a `PartialOrd`.
    pub open spec fn spec_partial_cmp(self, other: PartialVersion) -> Option<Ordering> {
        match (self, other) {
            (PartialVersion::Pre10m(a, b), PartialVersion::Pre10m(x, y)) => Option::Some(
                spec_cmp2(a as int, b as int, x as int, y as int),
            ),
            (PartialVersion::Pre10m(a, b), PartialVersion::Pre10mm(x, y, _)) => Option::Some(
                spec_cmp2(a as int, b as int, x as int, y as int),
            ),
            (PartialVersion::Pre10mm(a, b, _), PartialVersion::Pre10m(x, y)) => Option::Some(
                spec_cmp2(a as int, b as int, x as int, y as int),
            ),
            (PartialVersion::Pre10mm(a, b, c), PartialVersion::Pre10mm(x, y, z)) => Option::Some(
                spec_cmp3(a as int, b as int, c as int, x as int, y as int, z as int),
            ),
            (PartialVersion::Post10m(a), PartialVersion::Post10m(x)) => Option::Some(
                spec_cmp2(a as int, 0, x as int, 0),
            ),
            (PartialVersion::Post10m(a), PartialVersion::Post10mm(x, _)) => Option::Some(
                spec_cmp2(a as int, 0, x as int, 0),
            ),
            (PartialVersion::Post10mm(a, _), PartialVersion::Post10m(x)) => Option::Some(
                spec_cmp2(a as int, 0, x as int, 0),
            ),
            (PartialVersion::Post10mm(a, b), PartialVersion::Post10mm(x, y)) => Option::Some(
                spec_cmp2(a as int, b as int, x as int, y as int),
            ),
            (PartialVersion::Pre10m(..), _) => Option::Some(Ordering::Less),
            (PartialVersion::Pre10mm(..), _) => Option::Some(Ordering::Less),
            (PartialVersion::Post10m(..), _) => Option::Some(Ordering::Greater),
            (PartialVersion::Post10mm(..), _) => Option::Some(Ordering::Greater),
        }
    }

    /// The text this version renders to: the numbers it has, separated by
    /// dots.
    pub open spec fn spec_text(self) -> Seq<char> {
        match self {
            PartialVersion::Pre10m(a, b) => dec_str(a as nat) + seq!['.'] + dec_str(b as nat),
            PartialVersion::Pre10mm(a, b, c) => dec_str(a as nat) + seq!['.'] + dec_str(b as nat)
                + seq!['.'] + dec_str(c as nat),
            PartialVersion::Post10m(a) => dec_str(a as nat),
            PartialVersion::Post10mm(a, b) => dec_str(a as nat) + seq!['.'] + dec_str(b as nat),
        }
    }

    /// Render this version as text, e.g. `9.6.17` or `12`.
    pub fn to_text(&self) -> (r: String)
        ensures
            r@ == self.spec_text(),
    {
        let mut out = String::new();
        proof {
            reveal_strlit(".");
        }
        match *self {
            PartialVersion::Pre10m(a, b) => {
                push_u32(&mut out, a);
                out.append(".");
                push_u32(&mut out, b);
            },
            PartialVersion::Pre10mm(a, b, c) => {
                push_u32(&mut out, a);
                out.append(".");
                push_u32(&mut out, b);
                out.append(".");
                push_u32(&mut out, c);
            },
            PartialVersion::Post10m(a) => {
                push_u32(&mut out, a);
            },
            PartialVersion::Post10mm(a, b) => {
                push_u32(&mut out, a);
                out.append(".");
                push_u32(&mut out, b);
            },
        }
        proof {
            assert(out@ =~= self.spec_text());
        }
        out
    }

    /// The full [`Version`] this partial version stands for, with 0 in
    /// the place of the missing parts: `9.6` becomes `9.6.0`, and `12`
    /// becomes `12.0`.
    pub open spec fn spec_full(self) -> Version {
        match self {
            PartialVersion::Pre10m(a, b) => Version::Pre10(a, b, 0),
            PartialVersion::Pre10mm(a, b, c) => Version::Pre10(a, b, c),
            PartialVersion::Post10m(a) => Version::Post10(a, 0),
            PartialVersion::Post10mm(a, b) => Version::Post10(a, b),
        }
    }

    /// What parsing yields for given scanned components.
    pub open spec fn spec_from_captures(
        caps: Option<(Option<u32>, Option<u32>, Option<u32>)>,
    ) -> Result<PartialVersion, Error> {
        match caps {
            Option::None => Result::Err(Error::Missing),
            Option::Some(parts) => match parts {
                (Option::Some(a), Option::Some(b), Option::None) if a < 10 => Result::Ok(
                    PartialVersion::Pre10m(a, b),
                ),
                (Option::Some(a), Option::Some(b), Option::Some(c)) if a < 10 => Result::Ok(
                    PartialVersion::Pre10mm(a, b, c),
                ),
                (Option::Some(a), Option::None, Option::None) if a >= 10 => Result::Ok(
                    PartialVersion::Post10m(a),
                ),
                (Option::Some(a), Option::Some(b), Option::None) if a >= 10 => Result::Ok(
                    PartialVersion::Post10mm(a, b),
                ),
                _ => Result::Err(Error::BadlyFormed),
            },
        }
    }

    /// What parsing yields for given text, over its UTF-8 bytes.
    pub open spec fn spec_parse(bytes: Seq<u8>) -> Result<PartialVersion, Error> {
        PartialVersion::spec_from_captures(spec_find_captures(bytes))
    }

    /// Decide which partial version scanned components form. See
    /// [`Self::spec_from_captures`].
    pub fn from_captures(caps: Option<(Option<u32>, Option<u32>, Option<u32>)>) -> (r: Result<
        PartialVersion,
        Error,
    >)
        ensures
            r == PartialVersion::spec_from_captures(caps),
    {
        match caps {
            Option::None => Result::Err(Error::Missing),
            Option::Some(parts) => match parts {
                (Option::Some(a), Option::Some(b), Option::None) if a < 10 => Result::Ok(
                    PartialVersion::Pre10m(a, b),
                ),
                (Option::Some(a), Option::Some(b), Option::Some(c)) if a < 10 => Result::Ok(
                    PartialVersion::Pre10mm(a, b, c),
                ),
                (Option::Some(a), Option::None, Option::None) if a >= 10 => Result::Ok(
                    PartialVersion::Post10m(a),
                ),
                (Option::Some(a), Option::Some(b), Option::None) if a >= 10 => Result::Ok(
                    PartialVersion::Post10mm(a, b),
                ),
                _ => Result::Err(Error::BadlyFormed),
            },
        }
    }

    /// Whatever parses is valid: each parsing rule only builds a variant
    /// whose era agrees with its major number.
    pub proof fn lemma_parse_valid(bytes: Seq<u8>)
        ensures
            PartialVersion::spec_parse(bytes) matches Ok(v) ==> v.spec_valid(),
    {
    }

    /// Parse a partial version out of `text`, which may hold surrounding
    /// words.
    pub fn parse(text: &str) -> (r: Result<PartialVersion, Error>)
        ensures
            r == PartialVersion::spec_parse(text.spec_bytes()),
    {
        let bytes = text.as_bytes_vec();
        PartialVersion::from_captures(find_captures(&bytes))
    }
}

/// Compare two pairs lexicographically, as [`spec_cmp2`] says.
fn cmp2(a: u32, b: u32, x: u32, y: u32) -> (r: Ordering)
    ensures
        r == spec_cmp2(a as int, b as int, x as int, y as int),
{
    if a < x {
        Ordering::Less
    } else if a > x {
        Ordering::Greater
    } else if b < y {
        Ordering::Less
    } else if b > y {
        Ordering::Greater
    } else {
        Ordering::Equal
    }
}

/// Compare two triples lexicographically, as [`spec_cmp3`] says.
fn cmp3(a: u32, b: u32, c: u32, x: u32, y: u32, z: u32) -> (r: Ordering)
    ensures
        r == spec_cmp3(a as int, b as int, c as int, x as int, y as int, z as int),
{
    if a != x || b != y {
        cmp2(a, b, x, y)
    } else if c < z {
        Ordering::Less
    } else if c > z {
        Ordering::Greater
    } else {
        Ordering::Equal
    }
}

impl PartialOrd for PartialVersion {
    fn partial_cmp(&self, other: &Self) -> (r: Option<Ordering>) {
        match (*self, *other) {
            (PartialVersion::Pre10m(a, b), PartialVersion::Pre10m(x, y)) => Option::Some(
                cmp2(a, b, x, y),
            ),
            (PartialVersion::Pre10m(a, b), PartialVersion::Pre10mm(x, y, _)) => Option::Some(
                cmp2(a, b, x, y),
            ),
            (PartialVersion::Pre10mm(a, b, _), PartialVersion::Pre10m(x, y)) => Option::Some(
                cmp2(a, b, x, y),
            ),
            (PartialVersion::Pre10mm(a, b, c), PartialVersion::Pre10mm(x, y, z)) => Option::Some(
                cmp3(a, b, c, x, y, z),
            ),
            (PartialVersion::Post10m(a), PartialVersion::Post10m(x)) => Option::Some(
                cmp2(a, 0, x, 0),
            ),
            (PartialVersion::Post10m(a), PartialVersion::Post10mm(x, _)) => Option::Some(
                cmp2(a, 0, x, 0),
            ),
            (PartialVersion::Post10mm(a, _), PartialVersion::Post10m(x)) => Option::Some(
                cmp2(a, 0, x, 0),
            ),
            (PartialVersion::Post10mm(a, b), PartialVersion::Post10mm(x, y)) => Option::Some(
                cmp2(a, b, x, y),
            ),
            (PartialVersion::Pre10m(..), _) => Option::Some(Ordering::Less),
            (PartialVersion::Pre10mm(..), _) => Option::Some(Ordering::Less),
            (PartialVersion::Post10m(..), _) => Option::Some(Ordering::Greater),
            (PartialVersion::Post10mm(..), _) => Option::Some(Ordering::Greater),
        }
    }
}

impl vstd::std_specs::cmp::PartialOrdSpecImpl for PartialVersion {
    open spec fn obeys_partial_cmp_spec() -> bool {
        true
    }

    open spec fn partial_cmp_spec(&self, other: &Self) -> Option<Ordering> {
        self.spec_partial_cmp(*other)
    }
}

impl PartialEq for PartialVersion {
    fn eq(&self, other: &Self) -> (r: bool) {
        matches!(self.partial_cmp(other), Option::Some(Ordering::Equal))
    }
}

impl vstd::std_specs::cmp::PartialEqSpecImpl for PartialVersion {
    open spec fn obeys_eq_spec() -> bool {
        true
    }

    open spec fn eq_spec(&self, other: &Self) -> bool {
        self.spec_partial_cmp(*other) == Option::Some(Ordering::Equal)
    }
}

impl From<PartialVersion> for Version {
    /// Zero-fill the missing parts: `9.6` becomes `9.6.0`, `12` becomes
    /// `12.0`.
    fn from(partial: PartialVersion) -> (r: Version) {
        match partial {
            PartialVersion::Pre10m(a, b) => Version::Pre10(a, b, 0),
            PartialVersion::Pre10mm(a, b, c) => Version::Pre10(a, b, c),
            PartialVersion::Post10m(a) => Version::Post10(a, 0),
            PartialVersion::Post10mm(a, b) => Version::Post10(a, b),
        }
    }
}

impl vstd::std_specs::convert::FromSpecImpl<PartialVersion> for Version {
    open spec fn obeys_from_spec() -> bool {
        true
    }

    open spec fn from_spec(partial: PartialVersion) -> Version {
        partial.spec_full()
    }
}

impl From<Version> for PartialVersion {
    /// Keep every part the full version has.
    fn from(version: Version) -> (r: PartialVersion) {
        match version {
            Version::Pre10(a, b, c) => PartialVersion::Pre10mm(a, b, c),
            Version::Post10(a, b) => PartialVersion::Post10mm(a, b),
        }
    }
}

impl vstd::std_specs::convert::FromSpecImpl<Version> for PartialVersion {
    open spec fn obeys_from_spec() -> bool {
        true
    }

    open spec fn from_spec(version: Version) -> PartialVersion {
        match version {
            Version::Pre10(a, b, c) => PartialVersion::Pre10mm(a, b, c),
            Version::Post10(a, b) => PartialVersion::Post10mm(a, b),
        }
    }
}

impl core::str::FromStr for PartialVersion {
    type Err = Error;

    /// See [`PartialVersion::parse`].
    fn from_str(s: &str) -> Result<PartialVersion, Error> {
        PartialVersion::parse(s)
    }
}

} // verus!
