//! Create, start, coordinate, and tear down ephemeral PostgreSQL clusters.
//!
//! Many independent processes can share one disk-backed cluster safely:
//! whichever process needs the cluster first creates and starts it, every
//! concurrent user works against it under a shared advisory lock, and the
//! last user to finish stops (or destroys) it. All coordination happens
//! through `flock`-style advisory locks on a single lock file; there is no
//! central coordinator.

pub mod cli;
pub mod cluster;
pub mod coordinate;
pub mod lock;
pub mod runtime;
pub mod util;
pub mod version;

use vstd::prelude::*;

verus! {

/// One of two alternatives. Non-blocking lock transitions return this:
/// `Left` carries the original handle back unchanged (the lock was
/// contended), `Right` carries the handle in its new state.
#[derive(Debug)]
pub enum Either<L, R> {
    Left(L),
    Right(R),
}

} // verus!
