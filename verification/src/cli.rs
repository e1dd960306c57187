//! The command-line surface of the companion binary.
//!
//! These are the bare argument records. The binary itself owns the
//! argument parser and converts what it parsed into these types before
//! calling into the library.

use vstd::prelude::*;

verus! {

/// Which cluster to work with.
#[derive(Clone, Debug, PartialEq, Eq)]
pub struct ClusterArgs {
    /// The directory in which to place, or find, the cluster.
    pub dir: String,
    /// Run the cluster in a "safer" or "faster" mode, sticky across
    /// runs; `None` leaves the cluster's current mode alone.
    pub mode: Option<Mode>,
}

/// Which database to connect to.
#[derive(Clone, Debug, PartialEq, Eq)]
pub struct DatabaseArgs {
    /// The database's name.
    pub name: String,
}

/// What happens to the cluster after use.
#[derive(Clone, Copy, Debug, PartialEq, Eq, Structural)]
pub struct LifecycleArgs {
    /// Destroy the cluster after use — deleting the data directory —
    /// instead of merely stopping it.
    pub destroy: bool,
}

/// The durability trade-off a cluster runs with. The mode is sticky:
/// running with a mode reconfigures the cluster, and it continues to
/// run in that mode.
#[derive(Clone, Copy, Debug, PartialEq, Eq, PartialOrd, Ord, Structural)]
pub enum Mode {
    /// Reset `fsync`, `full_page_writes`, and `synchronous_commit` to
    /// their defaults: slower but safer.
    Slow,
    /// Disable `fsync`, `full_page_writes`, and `synchronous_commit`:
    /// faster, but a power failure or crash can corrupt the cluster
    /// beyond recovery.
    Fast,
}

} // verus!
