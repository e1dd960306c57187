//! Discover and select PostgreSQL installations.
//!
//! A system may have many versions of PostgreSQL installed, e.g. in
//! `/usr/lib/postgresql/*` on Debian and Ubuntu. [`Runtime`] represents
//! one such installation; the [`Strategy`] trait represents how to choose
//! a runtime for a cluster. Probing an installation — running its
//! `pg_ctl --version` — is the caller's business; what this module owns
//! is the judgment: parsing what the probe reported, and selecting the
//! best runtime for a version constraint.

pub mod error;
pub mod strategies;

pub use error::RuntimeError;

use vstd::prelude::*;
use vstd::string::StringSliceAdditionalSpecFns;

use crate::version::{PartialVersion, Version};

verus! {

/// One PostgreSQL installation.
#[derive(Debug, PartialEq, Eq)]
pub struct Runtime {
    /// Path to the directory containing the `pg_ctl` executable and
    /// other PostgreSQL binaries.
    pub bindir: String,
    /// Version of this runtime.
    pub version: Version,
}

impl Clone for Runtime {
    /// Clones are equal to the original.
    fn clone(&self) -> (r: Self)
        ensures
            r == *self,
    {
        Runtime { bindir: self.bindir.clone(), version: self.version }
    }
}

impl Runtime {
    /// The runtime at `bindir` whose `pg_ctl --version` printed
    /// `version_output`, e.g. `pg_ctl (PostgreSQL) 12.2`. The version
    /// number is parsed out of that report; leading text does not matter.
    pub fn new(bindir: &str, version_output: &str) -> (r: Result<Runtime, RuntimeError>)
        ensures
            match Version::spec_parse(version_output.spec_bytes()) {
                Ok(v) => r matches Ok(rt) && rt.bindir@ == bindir@ && rt.version == v,
                Err(e) => r == Result::<Runtime, RuntimeError>::Err(RuntimeError::UnknownVersion(e)),
            },
    {
        match Version::parse(version_output) {
            Ok(version) => Ok(Runtime { bindir: bindir.to_owned(), version }),
            Err(e) => Err(RuntimeError::UnknownVersion(e)),
        }
    }
}

/// A strategy for finding PostgreSQL runtimes. It answers three
/// questions: what runtimes are available; which of them suits a given
/// version constraint best; and which to use when there is no constraint
/// at all, e.g. when creating a new cluster.
pub trait Strategy: Sized {
    /// The runtimes this strategy knows about, in order of discovery.
    spec fn spec_runtimes(&self) -> Seq<Runtime>;

    /// All runtimes that this strategy knows about.
    fn runtimes(&self) -> (r: Vec<Runtime>)
        ensures
            r@ == self.spec_runtimes(),
    ;

    /// The most appropriate known runtime for the given version
    /// constraint: a compatible runtime no other compatible runtime
    /// outranks, or `None` exactly when no known runtime is compatible.
    fn select(&self, version: &PartialVersion) -> (r: Option<Runtime>)
        ensures
            match r {
                Some(rt) => self.spec_runtimes().contains(rt) && version.spec_compatible(rt.version)
                    && forall|j: int|
                    0 <= j < self.spec_runtimes().len() && version.spec_compatible(
                        #[trigger] self.spec_runtimes()[j].version,
                    ) ==> self.spec_runtimes()[j].version.spec_le(rt.version),
                None => forall|j: int|
                    0 <= j < self.spec_runtimes().len() ==> !version.spec_compatible(
                        #[trigger] self.spec_runtimes()[j].version,
                    ),
            },
    ;

    /// The runtime to use when there are no version constraints: a
    /// runtime no other known runtime outranks, or `None` exactly when
    /// the strategy knows no runtime at all.
    fn fallback(&self) -> (r: Option<Runtime>)
        ensures
            match r {
                Some(rt) => self.spec_runtimes().contains(rt) && forall|j: int|
                    0 <= j < self.spec_runtimes().len()
                        ==> #[trigger] self.spec_runtimes()[j].version.spec_le(rt.version),
                None => self.spec_runtimes().len() == 0,
            },
    ;
}

/// Use a single runtime as a strategy.
impl Strategy for Runtime {
    /// This runtime itself is the only runtime known to this strategy.
    open spec fn spec_runtimes(&self) -> Seq<Runtime> {
        seq![*self]
    }

    fn runtimes(&self) -> (r: Vec<Runtime>) {
        let mut r: Vec<Runtime> = Vec::new();
        r.push(self.clone());
        proof {
            assert(r@ =~= seq![*self]);
        }
        r
    }

    /// This runtime, when the constraint is compatible with it.
    fn select(&self, version: &PartialVersion) -> (r: Option<Runtime>) {
        if version.compatible(self.version) {
            proof {
                assert(self.spec_runtimes().contains(*self)) by {
                    assert(self.spec_runtimes()[0] == *self);
                };
            }
            Some(self.clone())
        } else {
            None
        }
    }

    /// Always this runtime.
    fn fallback(&self) -> (r: Option<Runtime>) {
        proof {
            assert(self.spec_runtimes().contains(*self)) by {
                assert(self.spec_runtimes()[0] == *self);
            };
        }
        Some(self.clone())
    }
}

/// The runtimes with duplicate versions removed: of several runtimes
/// reporting the same version, the first listed wins.
pub open spec fn spec_dedup_versions(s: Seq<Runtime>) -> Seq<Runtime>
    decreases s.len(),
{
    if s.len() == 0 {
        Seq::empty()
    } else {
        let rest = spec_dedup_versions(s.drop_last());
        if exists|j: int| 0 <= j < s.len() - 1 && #[trigger] s[j].version == s.last().version {
            rest
        } else {
            rest.push(s.last())
        }
    }
}

/// Drop every runtime whose version already occurred earlier in the
/// list, as [`spec_dedup_versions`] says.
pub fn dedup_versions(runtimes: &Vec<Runtime>) -> (r: Vec<Runtime>)
    ensures
        r@ == spec_dedup_versions(runtimes@),
{
    let mut out: Vec<Runtime> = Vec::new();
    let mut i: usize = 0;
    while i < runtimes.len()
        invariant
            i <= runtimes@.len(),
            out@ == spec_dedup_versions(runtimes@.take(i as int)),
        decreases runtimes@.len() - i,
    {
        let mut seen = false;
        let mut j: usize = 0;
        while j < i
            invariant
                j <= i < runtimes@.len(),
                seen == exists|k: int|
                    0 <= k < j && #[trigger] runtimes@[k].version == runtimes@[i as int].version,
            decreases i - j,
        {
            if runtimes[j].version == runtimes[i].version {
                seen = true;
            }
            j = j + 1;
        }
        proof {
            let pre = runtimes@.take(i as int);
            let post = runtimes@.take(i as int + 1);
            assert(post.drop_last() =~= pre);
            assert(post.last() == runtimes@[i as int]);
            if seen {
                let k = choose|k: int|
                    0 <= k < i && #[trigger] runtimes@[k].version == runtimes@[i as int].version;
                assert(post[k].version == post.last().version);
            } else {
                assert forall|k: int|
                    0 <= k < post.len() - 1 implies #[trigger] post[k].version
                    != post.last().version by {
                    assert(post[k] == runtimes@[k]);
                }
            }
        }
        if !seen {
            out.push(runtimes[i].clone());
        }
        i = i + 1;
    }
    proof {
        assert(runtimes@.take(i as int) =~= runtimes@);
    }
    out
}

/// A fixed collection of runtimes — discovered however the caller saw
/// fit — used as a strategy, in order of discovery.
pub struct StrategySet {
    runtimes: Vec<Runtime>,
}

impl StrategySet {
    /// A strategy over the given runtimes, with duplicate versions
    /// removed: of several runtimes reporting the same version, the
    /// first listed wins.
    pub fn new(runtimes: Vec<Runtime>) -> (r: StrategySet)
        ensures
            r.spec_runtimes() == spec_dedup_versions(runtimes@),
    {
        StrategySet { runtimes: dedup_versions(&runtimes) }
    }
}

impl Strategy for StrategySet {
    /// Exactly the runtimes the set was built from.
    closed spec fn spec_runtimes(&self) -> Seq<Runtime> {
        self.runtimes@
    }

    fn runtimes(&self) -> (r: Vec<Runtime>) {
        let mut r: Vec<Runtime> = Vec::new();
        let mut i: usize = 0;
        while i < self.runtimes.len()
            invariant
                i <= self.runtimes@.len(),
                r@ == self.runtimes@.take(i as int),
            decreases self.runtimes@.len() - i,
        {
            r.push(self.runtimes[i].clone());
            proof {
                assert(r@ =~= self.runtimes@.take(i as int + 1));
            }
            i = i + 1;
        }
        proof {
            assert(self.runtimes@.take(i as int) =~= self.runtimes@);
        }
        r
    }

    /// The highest-versioned compatible runtime.
    fn select(&self, version: &PartialVersion) -> (r: Option<Runtime>) {
        let rts = &self.runtimes;
        let mut found = false;
        let mut bi: usize = 0;
        let mut i: usize = 0;
        while i < rts.len()
            invariant
                i <= rts@.len(),
                found ==> bi < i && version.spec_compatible(rts@[bi as int].version),
                found ==> forall|j: int|
                    0 <= j < i && version.spec_compatible(#[trigger] rts@[j].version)
                        ==> rts@[j].version.spec_le(rts@[bi as int].version),
                !found ==> forall|j: int|
                    0 <= j < i ==> !version.spec_compatible(#[trigger] rts@[j].version),
            decreases rts@.len() - i,
        {
            if version.compatible(rts[i].version) {
                if !found {
                    found = true;
                    bi = i;
                } else if rts[bi].version.le(&rts[i].version) {
                    proof {
                        assert forall|j: int|
                            0 <= j < i + 1 && version.spec_compatible(
                                #[trigger] rts@[j].version,
                            ) implies rts@[j].version.spec_le(rts@[i as int].version) by {
                            if j < i {
                                Version::lemma_le_trans(
                                    rts@[j].version,
                                    rts@[bi as int].version,
                                    rts@[i as int].version,
                                );
                            }
                        }
                    }
                    bi = i;
                } else {
                    proof {
                        Version::lemma_le_total(rts@[bi as int].version, rts@[i as int].version);
                    }
                }
            }
            i = i + 1;
        }
        if found {
            proof {
                assert(rts@.contains(rts@[bi as int]));
            }
            Some(rts[bi].clone())
        } else {
            None
        }
    }

    /// The highest-versioned runtime of the whole set.
    fn fallback(&self) -> (r: Option<Runtime>) {
        let rts = &self.runtimes;
        if rts.len() == 0 {
            return None;
        }
        let mut bi: usize = 0;
        let mut i: usize = 1;
        while i < rts.len()
            invariant
                bi < i <= rts@.len(),
                forall|j: int|
                    0 <= j < i ==> #[trigger] rts@[j].version.spec_le(rts@[bi as int].version),
            decreases rts@.len() - i,
        {
            if rts[bi].version.le(&rts[i].version) {
                proof {
                    assert forall|j: int|
                        0 <= j < i + 1 implies #[trigger] rts@[j].version.spec_le(
                        rts@[i as int].version,
                    ) by {
                        if j < i {
                            Version::lemma_le_trans(
                                rts@[j].version,
                                rts@[bi as int].version,
                                rts@[i as int].version,
                            );
                        }
                    }
                }
                bi = i;
            } else {
                proof {
                    Version::lemma_le_total(rts@[bi as int].version, rts@[i as int].version);
                }
            }
            i = i + 1;
        }
        proof {
            assert(rts@.contains(rts@[bi as int]));
        }
        Some(rts[bi].clone())
    }
}

} // verus!
