//! Safely coordinate use of a cluster among uncoordinated processes.
//!
//! Any number of processes may want the same cluster at once: whichever
//! needs it first must create and start it, all concurrent users use it
//! under a shared lock, and the last user to finish stops — or destroys
//! — it. No process ever talks to another; all coordination runs through
//! the advisory locks of [`crate::lock`] on one lock file.
//!
//! The protocol is expressed as two state machines, driven one step at a
//! time. The holder of a machine performs the operation its state calls
//! for — a lock transition, a status probe, a start or a teardown — and
//! hands the outcome back as an event; [`startup_step`] and
//! [`shutdown_step`] decide the next state. Every decision the protocol
//! makes stands here, verified; only the operations themselves (running
//! `pg_ctl`, sleeping) happen outside.
//!
//! At the bottom of this module sits a model of the whole system — any
//! number of processes, the lock table, the resource — with proofs of
//! the protocol's central guarantees: at most one process ever creates
//! the cluster, every process that reaches its action sees the cluster
//! running, and no process can tear the cluster down while another is
//! still using it.

use vstd::prelude::*;

use crate::lock::{can_grant, grant, lock_table_wf, release, LockMode};

verus! {

// ------------------------------------------------------------------
// Jittered backoff.
// ------------------------------------------------------------------

/// The number of milliseconds below which a retry backoff never falls.
pub const BACKOFF_FLOOR_MILLIS: u64 = 200;

/// The width of the backoff window: delays lie in [200, 1000) ms.
pub const BACKOFF_SPAN_MILLIS: u64 = 800;

/// Relies on `rand::random`: a fresh random `u32`. Nothing can be
/// promised of a random value.
#[verifier::external_body]
fn random_u32() -> u32 {
    rand::random::<u32>()
}

/// The jittered backoff delay a raw random draw maps to: the floor plus
/// the draw modulo the window, so a uniformly distributed draw gives a
/// uniformly distributed delay within [200, 1000) ms.
pub fn backoff_millis(draw: u32) -> (d: u64)
    ensures
        d == BACKOFF_FLOOR_MILLIS + (draw as u64) % BACKOFF_SPAN_MILLIS,
        BACKOFF_FLOOR_MILLIS <= d < BACKOFF_FLOOR_MILLIS + BACKOFF_SPAN_MILLIS,
{
    BACKOFF_FLOOR_MILLIS + random_to_span(draw)
}

/// The draw reduced to the backoff window.
fn random_to_span(draw: u32) -> (d: u64)
    ensures
        d == (draw as u64) % BACKOFF_SPAN_MILLIS,
        d < BACKOFF_SPAN_MILLIS,
{
    (draw as u64) % BACKOFF_SPAN_MILLIS
}

/// Draw a fresh jittered backoff delay, uniformly distributed within
/// [200, 1000) milliseconds. Sleeping this long between retries
/// desynchronises competing processes, so that one of them rapidly
/// acquires the exclusive lock and can create and start the cluster.
pub fn fresh_backoff_millis() -> (d: u64)
    ensures
        BACKOFF_FLOOR_MILLIS <= d < BACKOFF_FLOOR_MILLIS + BACKOFF_SPAN_MILLIS,
{
    backoff_millis(random_u32())
}

// ------------------------------------------------------------------
// The startup protocol.
// ------------------------------------------------------------------

/// Where a process stands in the startup protocol. Each state names the
/// one operation to perform next; its outcome, as a [`StartupEvent`],
/// decides the next state through [`startup_step`].
#[derive(Clone, Copy, Debug, PartialEq, Eq, Structural)]
pub enum StartupState {
    /// Holding no lock: try a non-blocking exclusive lock.
    TryExclusive,
    /// The lock was contended — someone else is working on the cluster:
    /// block for a shared lock.
    AwaitShared,
    /// Holding a shared lock: probe whether the cluster is running. It
    /// may have been started while the exclusive lock was held, or the
    /// previous holder may have given up, crashed, or torn the cluster
    /// down.
    ProbeUnderShared,
    /// Holding a shared lock on a cluster that is not running: release
    /// the lock, sleep a jittered backoff, and retry from the top.
    ReleaseAndBackoff,
    /// Holding the exclusive lock: create and start the cluster.
    StartUnderExclusive,
    /// The cluster is running and this process holds the exclusive lock:
    /// downgrade to a shared lock.
    Downgrade,
    /// Holding a shared lock on a running cluster: startup is complete,
    /// and the action may run.
    Done,
}

/// The outcome of the operation a [`StartupState`] called for.
#[derive(Clone, Copy, Debug, PartialEq, Eq, Structural)]
pub enum StartupEvent {
    /// The non-blocking exclusive request was granted.
    ExclusiveAcquired,
    /// The non-blocking exclusive request found the lock contended.
    ExclusiveContended,
    /// The (blocking) shared request was granted.
    SharedAcquired,
    /// The status probe reported whether the cluster is running.
    Running(bool),
    /// The cluster was started — or found already started.
    Started,
    /// The lock was released and the backoff sleep has finished.
    BackedOff,
}

/// Which lock the holder of a startup state has.
pub open spec fn startup_mode(s: StartupState) -> Option<LockMode> {
    match s {
        StartupState::TryExclusive => None,
        StartupState::AwaitShared => None,
        StartupState::ProbeUnderShared => Some(LockMode::Shared),
        StartupState::ReleaseAndBackoff => Some(LockMode::Shared),
        StartupState::StartUnderExclusive => Some(LockMode::Exclusive),
        StartupState::Downgrade => Some(LockMode::Exclusive),
        StartupState::Done => Some(LockMode::Shared),
    }
}

/// The startup transition table. `None` marks an event that its state
/// never produces; a driver reaching it has wired the protocol wrong.
pub open spec fn spec_startup_step(s: StartupState, e: StartupEvent) -> Option<StartupState> {
    match (s, e) {
        (StartupState::TryExclusive, StartupEvent::ExclusiveAcquired) => Some(
            StartupState::StartUnderExclusive,
        ),
        (StartupState::TryExclusive, StartupEvent::ExclusiveContended) => Some(
            StartupState::AwaitShared,
        ),
        (StartupState::AwaitShared, StartupEvent::SharedAcquired) => Some(
            StartupState::ProbeUnderShared,
        ),
        (StartupState::ProbeUnderShared, StartupEvent::Running(running)) => Some(
            if running {
                StartupState::Done
            } else {
                StartupState::ReleaseAndBackoff
            },
        ),
        (StartupState::ReleaseAndBackoff, StartupEvent::BackedOff) => Some(
            StartupState::TryExclusive,
        ),
        (StartupState::StartUnderExclusive, StartupEvent::Started) => Some(StartupState::Downgrade),
        (StartupState::Downgrade, StartupEvent::SharedAcquired) => Some(StartupState::Done),
        _ => None,
    }
}

/// Advance the startup protocol by one event. See [`spec_startup_step`]
/// for the whole table. The guarantees this protocol provides are
/// proved over the system model at the bottom of this module.
pub fn startup_step(s: StartupState, e: StartupEvent) -> (r: Option<StartupState>)
    ensures
        r == spec_startup_step(s, e),
{
    match (s, e) {
        (StartupState::TryExclusive, StartupEvent::ExclusiveAcquired) => Some(
            StartupState::StartUnderExclusive,
        ),
        (StartupState::TryExclusive, StartupEvent::ExclusiveContended) => Some(
            StartupState::AwaitShared,
        ),
        (StartupState::AwaitShared, StartupEvent::SharedAcquired) => Some(
            StartupState::ProbeUnderShared,
        ),
        (StartupState::ProbeUnderShared, StartupEvent::Running(running)) => Some(
            if running {
                StartupState::Done
            } else {
                StartupState::ReleaseAndBackoff
            },
        ),
        (StartupState::ReleaseAndBackoff, StartupEvent::BackedOff) => Some(
            StartupState::TryExclusive,
        ),
        (StartupState::StartUnderExclusive, StartupEvent::Started) => Some(StartupState::Downgrade),
        (StartupState::Downgrade, StartupEvent::SharedAcquired) => Some(StartupState::Done),
        _ => None,
    }
}

// ------------------------------------------------------------------
// The shutdown protocol.
// ------------------------------------------------------------------

/// Where a process stands in the shutdown protocol, entered holding the
/// shared lock under which its action ran.
#[derive(Clone, Copy, Debug, PartialEq, Eq, Structural)]
pub enum ShutdownState {
    /// Holding the shared lock: try a non-blocking upgrade to the
    /// exclusive lock.
    TryExclusive,
    /// Other users remain — the upgrade was contended: release the
    /// shared lock and leave the cluster running for them.
    ReleaseLeaving,
    /// This process is the last user — it holds the exclusive lock:
    /// perform the teardown (stop, or destroy).
    TearDownUnderExclusive,
    /// Teardown ended; the flag says whether this process itself
    /// performed it (`false` also when another process had taken over,
    /// which is benign): release the lock.
    ReleaseAfterTearDown(bool),
    /// The lock is released and shutdown is over; the flag says whether
    /// this process performed the teardown.
    Done(bool),
}

/// The outcome of the operation a [`ShutdownState`] called for.
#[derive(Clone, Copy, Debug, PartialEq, Eq, Structural)]
pub enum ShutdownEvent {
    /// The non-blocking upgrade was granted.
    ExclusiveAcquired,
    /// The non-blocking upgrade found the lock contended.
    ExclusiveContended,
    /// The teardown ran; the flag says whether it changed anything.
    TornDown(bool),
    /// The teardown reported the cluster as in use: between the lock
    /// upgrade and the teardown another process took over. Treated as
    /// "someone else is handling it", not as an error.
    TearDownBusy,
    /// The lock was released.
    Released,
}

/// Which lock the holder of a shutdown state has.
pub open spec fn shutdown_mode(s: ShutdownState) -> Option<LockMode> {
    match s {
        ShutdownState::TryExclusive => Some(LockMode::Shared),
        ShutdownState::ReleaseLeaving => Some(LockMode::Shared),
        ShutdownState::TearDownUnderExclusive => Some(LockMode::Exclusive),
        ShutdownState::ReleaseAfterTearDown(_) => Some(LockMode::Exclusive),
        ShutdownState::Done(_) => None,
    }
}

/// The shutdown transition table. `None` marks an event that its state
/// never produces.
pub open spec fn spec_shutdown_step(s: ShutdownState, e: ShutdownEvent) -> Option<ShutdownState> {
    match (s, e) {
        (ShutdownState::TryExclusive, ShutdownEvent::ExclusiveAcquired) => Some(
            ShutdownState::TearDownUnderExclusive,
        ),
        (ShutdownState::TryExclusive, ShutdownEvent::ExclusiveContended) => Some(
            ShutdownState::ReleaseLeaving,
        ),
        (ShutdownState::ReleaseLeaving, ShutdownEvent::Released) => Some(ShutdownState::Done(false)),
        (ShutdownState::TearDownUnderExclusive, ShutdownEvent::TornDown(did)) => Some(
            ShutdownState::ReleaseAfterTearDown(did),
        ),
        (ShutdownState::TearDownUnderExclusive, ShutdownEvent::TearDownBusy) => Some(
            ShutdownState::ReleaseAfterTearDown(false),
        ),
        (ShutdownState::ReleaseAfterTearDown(did), ShutdownEvent::Released) => Some(
            ShutdownState::Done(did),
        ),
        _ => None,
    }
}

/// Advance the shutdown protocol by one event. See [`spec_shutdown_step`]
/// for the whole table.
pub fn shutdown_step(s: ShutdownState, e: ShutdownEvent) -> (r: Option<ShutdownState>)
    ensures
        r == spec_shutdown_step(s, e),
{
    match (s, e) {
        (ShutdownState::TryExclusive, ShutdownEvent::ExclusiveAcquired) => Some(
            ShutdownState::TearDownUnderExclusive,
        ),
        (ShutdownState::TryExclusive, ShutdownEvent::ExclusiveContended) => Some(
            ShutdownState::ReleaseLeaving,
        ),
        (ShutdownState::ReleaseLeaving, ShutdownEvent::Released) => Some(ShutdownState::Done(false)),
        (ShutdownState::TearDownUnderExclusive, ShutdownEvent::TornDown(did)) => Some(
            ShutdownState::ReleaseAfterTearDown(did),
        ),
        (ShutdownState::TearDownUnderExclusive, ShutdownEvent::TearDownBusy) => Some(
            ShutdownState::ReleaseAfterTearDown(false),
        ),
        (ShutdownState::ReleaseAfterTearDown(did), ShutdownEvent::Released) => Some(
            ShutdownState::Done(did),
        ),
        _ => None,
    }
}

// ------------------------------------------------------------------
// The resource lifecycle.
// ------------------------------------------------------------------

/// The coarse lifecycle states of the coordinated resource. They are
/// never stored anywhere; a real cluster derives them on demand from
/// the filesystem and the status probe.
#[derive(Clone, Copy, Debug, PartialEq, Eq, Structural)]
pub enum ResourceState {
    /// No data directory.
    Absent,
    /// A data directory, but no server process.
    Stopped,
    /// A data directory and a server process.
    Running,
}

/// What creating does: nothing when the resource already exists. The
/// flag says whether this call did the creating.
pub open spec fn spec_create(r: ResourceState) -> (ResourceState, bool) {
    match r {
        ResourceState::Absent => (ResourceState::Stopped, true),
        other => (other, false),
    }
}

/// What starting does: creates first when necessary, then starts unless
/// already running. The flag says whether this call did the starting.
pub open spec fn spec_start(r: ResourceState) -> (ResourceState, bool) {
    match r {
        ResourceState::Running => (ResourceState::Running, false),
        _ => (ResourceState::Running, true),
    }
}

/// What stopping does: nothing unless the resource is running. The flag
/// says whether this call did the stopping.
pub open spec fn spec_stop(r: ResourceState) -> (ResourceState, bool) {
    match r {
        ResourceState::Running => (ResourceState::Stopped, true),
        other => (other, false),
    }
}

/// What destroying does: stops the resource if needed and removes it
/// entirely; nothing when it is already absent. The flag says whether
/// this call changed anything.
pub open spec fn spec_destroy(r: ResourceState) -> (ResourceState, bool) {
    match r {
        ResourceState::Absent => (ResourceState::Absent, false),
        _ => (ResourceState::Absent, true),
    }
}

/// Exec mirror of [`spec_create`].
pub fn model_create(r: ResourceState) -> (out: (ResourceState, bool))
    ensures
        out == spec_create(r),
{
    match r {
        ResourceState::Absent => (ResourceState::Stopped, true),
        other => (other, false),
    }
}

/// Exec mirror of [`spec_start`].
pub fn model_start(r: ResourceState) -> (out: (ResourceState, bool))
    ensures
        out == spec_start(r),
{
    match r {
        ResourceState::Running => (ResourceState::Running, false),
        _ => (ResourceState::Running, true),
    }
}

/// Exec mirror of [`spec_stop`].
pub fn model_stop(r: ResourceState) -> (out: (ResourceState, bool))
    ensures
        out == spec_stop(r),
{
    match r {
        ResourceState::Running => (ResourceState::Stopped, true),
        other => (other, false),
    }
}

/// Exec mirror of [`spec_destroy`].
pub fn model_destroy(r: ResourceState) -> (out: (ResourceState, bool))
    ensures
        out == spec_destroy(r),
{
    match r {
        ResourceState::Absent => (ResourceState::Absent, false),
        _ => (ResourceState::Absent, true),
    }
}

/// Idempotence of the lifecycle operations: creating an absent resource
/// creates it, and creating again does nothing; starting a running
/// resource does nothing; stopping a stopped resource does nothing; and
/// destroying an absent resource does nothing. Every operation is a
/// no-op in its "already there" direction.
pub proof fn lemma_lifecycle_idempotent(r: ResourceState)
    ensures
        spec_create(ResourceState::Absent) == (ResourceState::Stopped, true),
        spec_create(spec_create(r).0).1 == false,
        spec_start(spec_start(r).0).1 == false,
        spec_stop(spec_stop(r).0).1 == false,
        spec_destroy(spec_destroy(r).0).1 == false,
{
}

// ------------------------------------------------------------------
// The system model: any number of processes, one lock table, one
// resource. Each process follows the two protocols above; the lock
// table behaves as the model in `crate::lock` says `flock` does; the
// resource behaves as the lifecycle operations above say. The lemmas
// after the definitions prove the protocol's guarantees over every
// possible interleaving.
// ------------------------------------------------------------------

/// What one process is doing.
#[derive(Clone, Copy, Debug, PartialEq, Eq, Structural)]
pub enum Phase {
    /// Working through the startup protocol.
    Startup(StartupState),
    /// Running its action, under the shared lock startup ended with.
    Action,
    /// Working through the shutdown protocol.
    Shutdown(ShutdownState),
    /// Out of the protocol entirely.
    Finished,
}

/// The whole system at one instant.
pub struct SystemState {
    /// Each process's phase.
    pub procs: Map<int, Phase>,
    /// The lock file's advisory lock table.
    pub locks: Map<int, LockMode>,
    /// The coordinated resource.
    pub resource: ResourceState,
    /// How many times the resource has actually been created so far.
    pub creations: nat,
}

/// Which lock a process in this phase holds.
pub open spec fn phase_mode(p: Phase) -> Option<LockMode> {
    match p {
        Phase::Startup(s) => startup_mode(s),
        Phase::Action => Some(LockMode::Shared),
        Phase::Shutdown(s) => shutdown_mode(s),
        Phase::Finished => None,
    }
}

/// The phases from which a process counts on the resource running: from
/// the moment startup confirms (or brings about) a running resource,
/// until its shutdown either bows out or performs the teardown itself.
pub open spec fn observes_running(p: Phase) -> bool {
    ||| p == Phase::Startup(StartupState::Downgrade)
    ||| p == Phase::Startup(StartupState::Done)
    ||| p == Phase::Action
    ||| p == Phase::Shutdown(ShutdownState::TryExclusive)
    ||| p == Phase::Shutdown(ShutdownState::ReleaseLeaving)
    ||| p == Phase::Shutdown(ShutdownState::TearDownUnderExclusive)
}

/// The lock table records exactly the lock that process `p`'s phase
/// says it holds.
pub open spec fn mode_agrees(s: SystemState, p: int) -> bool {
    match phase_mode(s.procs[p]) {
        None => !s.locks.dom().contains(p),
        Some(m) => s.locks.dom().contains(p) && s.locks[p] == m,
    }
}

/// The system invariant: the lock table is well-formed, records only
/// known processes, and agrees with every process's phase; and whenever
/// any process counts on the resource running, it is running.
pub open spec fn sys_inv(s: SystemState) -> bool {
    &&& lock_table_wf(s.locks)
    &&& forall|p: int| #[trigger] s.locks.dom().contains(p) ==> s.procs.dom().contains(p)
    &&& forall|p: int| #[trigger] s.procs.dom().contains(p) ==> mode_agrees(s, p)
    &&& forall|p: int|
        #[trigger] s.procs.dom().contains(p) && observes_running(s.procs[p]) ==> s.resource
            is Running
}

/// The creation count matches the resource: a resource that was never
/// destroyed has been created exactly once, once it exists at all.
pub open spec fn creation_inv(s: SystemState) -> bool {
    s.creations == if s.resource is Absent {
        0nat
    } else {
        1nat
    }
}

/// A fresh system: every process at the top of startup, no locks held,
/// no resource yet.
pub open spec fn sys_initial(s: SystemState) -> bool {
    &&& forall|p: int|
        #[trigger] s.procs.dom().contains(p) ==> s.procs[p] == Phase::Startup(
            StartupState::TryExclusive,
        )
    &&& s.locks == Map::<int, LockMode>::empty()
    &&& s.resource == ResourceState::Absent
    &&& s.creations == 0
}

/// One step of the system: process `p` performs the operation its phase
/// calls for, atomically. Lock requests go by the granting rule of
/// [`crate::lock::can_grant`]; a non-blocking exclusive request may also
/// report contention regardless (the kernel may have granted the lock to
/// someone else in between). The status probe reports the resource's
/// actual state. `destroy` picks which teardown the shutdown protocol
/// performs. (The protocol also tolerates a teardown that reports
/// "busy"; under this model's atomic steps an exclusive holder can never
/// lose such a race, so that event does not arise here.)
pub open spec fn sys_step(pre: SystemState, post: SystemState, p: int, destroy: bool) -> bool {
    &&& pre.procs.dom().contains(p)
    &&& match pre.procs[p] {
        Phase::Startup(StartupState::TryExclusive) => {
            ||| (can_grant(pre.locks, p, LockMode::Exclusive) && post == (SystemState {
                procs: pre.procs.insert(p, Phase::Startup(StartupState::StartUnderExclusive)),
                locks: grant(pre.locks, p, LockMode::Exclusive),
                resource: pre.resource,
                creations: pre.creations,
            }))
            ||| post == (SystemState {
                procs: pre.procs.insert(p, Phase::Startup(StartupState::AwaitShared)),
                locks: pre.locks,
                resource: pre.resource,
                creations: pre.creations,
            })
        },
        Phase::Startup(StartupState::AwaitShared) => {
            &&& can_grant(pre.locks, p, LockMode::Shared)
            &&& post == (SystemState {
                procs: pre.procs.insert(p, Phase::Startup(StartupState::ProbeUnderShared)),
                locks: grant(pre.locks, p, LockMode::Shared),
                resource: pre.resource,
                creations: pre.creations,
            })
        },
        Phase::Startup(StartupState::ProbeUnderShared) => post == (SystemState {
            procs: pre.procs.insert(
                p,
                Phase::Startup(
                    if pre.resource is Running {
                        StartupState::Done
                    } else {
                        StartupState::ReleaseAndBackoff
                    },
                ),
            ),
            locks: pre.locks,
            resource: pre.resource,
            creations: pre.creations,
        }),
        Phase::Startup(StartupState::ReleaseAndBackoff) => post == (SystemState {
            procs: pre.procs.insert(p, Phase::Startup(StartupState::TryExclusive)),
            locks: release(pre.locks, p),
            resource: pre.resource,
            creations: pre.creations,
        }),
        Phase::Startup(StartupState::StartUnderExclusive) => post == (SystemState {
            procs: pre.procs.insert(p, Phase::Startup(StartupState::Downgrade)),
            locks: pre.locks,
            resource: spec_start(pre.resource).0,
            creations: if pre.resource is Absent {
                pre.creations + 1
            } else {
                pre.creations
            },
        }),
        Phase::Startup(StartupState::Downgrade) => {
            &&& can_grant(pre.locks, p, LockMode::Shared)
            &&& post == (SystemState {
                procs: pre.procs.insert(p, Phase::Startup(StartupState::Done)),
                locks: grant(pre.locks, p, LockMode::Shared),
                resource: pre.resource,
                creations: pre.creations,
            })
        },
        Phase::Startup(StartupState::Done) => post == (SystemState {
            procs: pre.procs.insert(p, Phase::Action),
            locks: pre.locks,
            resource: pre.resource,
            creations: pre.creations,
        }),
        Phase::Action => post == (SystemState {
            procs: pre.procs.insert(p, Phase::Shutdown(ShutdownState::TryExclusive)),
            locks: pre.locks,
            resource: pre.resource,
            creations: pre.creations,
        }),
        Phase::Shutdown(ShutdownState::TryExclusive) => {
            ||| (can_grant(pre.locks, p, LockMode::Exclusive) && post == (SystemState {
                procs: pre.procs.insert(p, Phase::Shutdown(ShutdownState::TearDownUnderExclusive)),
                locks: grant(pre.locks, p, LockMode::Exclusive),
                resource: pre.resource,
                creations: pre.creations,
            }))
            ||| post == (SystemState {
                procs: pre.procs.insert(p, Phase::Shutdown(ShutdownState::ReleaseLeaving)),
                locks: pre.locks,
                resource: pre.resource,
                creations: pre.creations,
            })
        },
        Phase::Shutdown(ShutdownState::ReleaseLeaving) => post == (SystemState {
            procs: pre.procs.insert(p, Phase::Shutdown(ShutdownState::Done(false))),
            locks: release(pre.locks, p),
            resource: pre.resource,
            creations: pre.creations,
        }),
        Phase::Shutdown(ShutdownState::TearDownUnderExclusive) => post == (SystemState {
            procs: pre.procs.insert(
                p,
                Phase::Shutdown(
                    ShutdownState::ReleaseAfterTearDown(
                        if destroy {
                            spec_destroy(pre.resource).1
                        } else {
                            spec_stop(pre.resource).1
                        },
                    ),
                ),
            ),
            locks: pre.locks,
            resource: if destroy {
                spec_destroy(pre.resource).0
            } else {
                spec_stop(pre.resource).0
            },
            creations: pre.creations,
        }),
        Phase::Shutdown(ShutdownState::ReleaseAfterTearDown(did)) => post == (SystemState {
            procs: pre.procs.insert(p, Phase::Shutdown(ShutdownState::Done(did))),
            locks: release(pre.locks, p),
            resource: pre.resource,
            creations: pre.creations,
        }),
        Phase::Shutdown(ShutdownState::Done(_)) => post == (SystemState {
            procs: pre.procs.insert(p, Phase::Finished),
            locks: pre.locks,
            resource: pre.resource,
            creations: pre.creations,
        }),
        Phase::Finished => false,
    }
}

/// A fresh system satisfies the invariants.
pub proof fn lemma_initial_inv(s: SystemState)
    requires
        sys_initial(s),
    ensures
        sys_inv(s),
        creation_inv(s),
{
    assert forall|p: int| #[trigger] s.procs.dom().contains(p) implies mode_agrees(s, p) by {
        assert(!s.locks.dom().contains(p));
    }
}

/// Invariant preservation for a step that only changes `p`'s phase,
/// keeping its lock, the lock table, the resource and the creation
/// count as they were.
proof fn lemma_phase_only_step(pre: SystemState, post: SystemState, p: int, next: Phase)
    requires
        sys_inv(pre),
        pre.procs.dom().contains(p),
        phase_mode(next) == phase_mode(pre.procs[p]),
        observes_running(next) ==> pre.resource is Running,
        post == (SystemState {
            procs: pre.procs.insert(p, next),
            locks: pre.locks,
            resource: pre.resource,
            creations: pre.creations,
        }),
    ensures
        sys_inv(post),
{
    assert(post.procs.dom() =~= pre.procs.dom());
    assert forall|q: int| #[trigger] post.procs.dom().contains(q) implies mode_agrees(post, q) by {
        if q != p {
            assert(post.procs[q] == pre.procs[q]);
        }
        assert(mode_agrees(pre, q));
    }
}

/// Invariant preservation for a step in which `p` is granted a lock the
/// granting rule allows, moving to a phase that holds exactly that
/// lock.
proof fn lemma_grant_step(pre: SystemState, post: SystemState, p: int, next: Phase, m: LockMode)
    requires
        sys_inv(pre),
        pre.procs.dom().contains(p),
        can_grant(pre.locks, p, m),
        phase_mode(next) == Some(m),
        observes_running(next) ==> pre.resource is Running,
        post == (SystemState {
            procs: pre.procs.insert(p, next),
            locks: grant(pre.locks, p, m),
            resource: pre.resource,
            creations: pre.creations,
        }),
    ensures
        sys_inv(post),
{
    crate::lock::lemma_grant_preserves_wf(pre.locks, p, m);
    assert(post.procs.dom() =~= pre.procs.dom());
    assert forall|q: int| #[trigger] post.locks.dom().contains(q) implies post.procs.dom().contains(
        q,
    ) by {
        if q != p {
            assert(pre.locks.dom().contains(q));
        }
    }
    assert forall|q: int| #[trigger] post.procs.dom().contains(q) implies mode_agrees(post, q) by {
        if q != p {
            assert(post.procs[q] == pre.procs[q]);
            assert(mode_agrees(pre, q));
        }
    }
}

/// Invariant preservation for a step in which `p` releases its lock,
/// moving to a phase that holds none.
proof fn lemma_release_step(pre: SystemState, post: SystemState, p: int, next: Phase)
    requires
        sys_inv(pre),
        pre.procs.dom().contains(p),
        phase_mode(next) == None::<LockMode>,
        !observes_running(next),
        post == (SystemState {
            procs: pre.procs.insert(p, next),
            locks: release(pre.locks, p),
            resource: pre.resource,
            creations: pre.creations,
        }),
    ensures
        sys_inv(post),
{
    crate::lock::lemma_release_preserves_wf(pre.locks, p);
    assert(post.procs.dom() =~= pre.procs.dom());
    assert forall|q: int| #[trigger] post.procs.dom().contains(q) implies mode_agrees(post, q) by {
        if q != p {
            assert(post.procs[q] == pre.procs[q]);
            assert(mode_agrees(pre, q));
        }
    }
}

/// Invariant preservation for the start step: under the exclusive lock
/// `p` creates (when necessary) and starts the resource and moves to
/// the downgrade phase. This is the only step that can create, and it
/// bumps the creation count exactly when it does.
proof fn lemma_start_step(pre: SystemState, post: SystemState, p: int)
    requires
        sys_inv(pre),
        pre.procs.dom().contains(p),
        pre.procs[p] == Phase::Startup(StartupState::StartUnderExclusive),
        post == (SystemState {
            procs: pre.procs.insert(p, Phase::Startup(StartupState::Downgrade)),
            locks: pre.locks,
            resource: spec_start(pre.resource).0,
            creations: if pre.resource is Absent {
                pre.creations + 1
            } else {
                pre.creations
            },
        }),
    ensures
        sys_inv(post),
        creation_inv(pre) ==> creation_inv(post),
{
    assert(post.procs.dom() =~= pre.procs.dom());
    assert forall|q: int| #[trigger] post.procs.dom().contains(q) implies mode_agrees(post, q) by {
        if q != p {
            assert(post.procs[q] == pre.procs[q]);
        }
        assert(mode_agrees(pre, q));
    }
}

/// Invariant preservation for the teardown step: as the sole lock
/// holder, `p` stops or destroys the resource. Well-formedness of the
/// lock table guarantees no other process holds any lock at that
/// moment, so no other process can be counting on the resource running.
proof fn lemma_teardown_step(pre: SystemState, post: SystemState, p: int, destroy: bool)
    requires
        sys_inv(pre),
        pre.procs.dom().contains(p),
        pre.procs[p] == Phase::Shutdown(ShutdownState::TearDownUnderExclusive),
        post == (SystemState {
            procs: pre.procs.insert(
                p,
                Phase::Shutdown(
                    ShutdownState::ReleaseAfterTearDown(
                        if destroy {
                            spec_destroy(pre.resource).1
                        } else {
                            spec_stop(pre.resource).1
                        },
                    ),
                ),
            ),
            locks: pre.locks,
            resource: if destroy {
                spec_destroy(pre.resource).0
            } else {
                spec_stop(pre.resource).0
            },
            creations: pre.creations,
        }),
    ensures
        sys_inv(post),
        !destroy && creation_inv(pre) ==> creation_inv(post),
{
    assert(mode_agrees(pre, p));
    assert(pre.locks.dom().contains(p) && pre.locks[p] is Exclusive);
    assert(post.procs.dom() =~= pre.procs.dom());
    assert forall|q: int| #[trigger] post.procs.dom().contains(q) implies mode_agrees(post, q) by {
        if q != p {
            assert(post.procs[q] == pre.procs[q]);
        }
        assert(mode_agrees(pre, q));
    }
    assert forall|q: int|
        #[trigger] post.procs.dom().contains(q) && observes_running(
            post.procs[q],
        ) implies post.resource is Running by {
        if q == p {
            assert(!observes_running(post.procs[p]));
        } else {
            assert(mode_agrees(pre, q));
            assert(pre.locks.dom().contains(q));
            assert(q == p);
        }
    }
    assert(pre.resource is Running);
}

/// Every step preserves the system invariant; and as long as teardowns
/// stop rather than destroy, it preserves the creation accounting too.
pub proof fn lemma_step_preserves_inv(pre: SystemState, post: SystemState, p: int, destroy: bool)
    requires
        sys_inv(pre),
        sys_step(pre, post, p, destroy),
    ensures
        sys_inv(post),
        !destroy && creation_inv(pre) ==> creation_inv(post),
{
    match pre.procs[p] {
        Phase::Startup(StartupState::TryExclusive) => {
            if can_grant(pre.locks, p, LockMode::Exclusive) && post == (SystemState {
                procs: pre.procs.insert(p, Phase::Startup(StartupState::StartUnderExclusive)),
                locks: grant(pre.locks, p, LockMode::Exclusive),
                resource: pre.resource,
                creations: pre.creations,
            }) {
                lemma_grant_step(
                    pre,
                    post,
                    p,
                    Phase::Startup(StartupState::StartUnderExclusive),
                    LockMode::Exclusive,
                );
            } else {
                lemma_phase_only_step(pre, post, p, Phase::Startup(StartupState::AwaitShared));
            }
        },
        Phase::Startup(StartupState::AwaitShared) => {
            lemma_grant_step(
                pre,
                post,
                p,
                Phase::Startup(StartupState::ProbeUnderShared),
                LockMode::Shared,
            );
        },
        Phase::Startup(StartupState::ProbeUnderShared) => {
            if pre.resource is Running {
                lemma_phase_only_step(pre, post, p, Phase::Startup(StartupState::Done));
            } else {
                lemma_phase_only_step(pre, post, p, Phase::Startup(StartupState::ReleaseAndBackoff));
            }
        },
        Phase::Startup(StartupState::ReleaseAndBackoff) => {
            lemma_release_step(pre, post, p, Phase::Startup(StartupState::TryExclusive));
        },
        Phase::Startup(StartupState::StartUnderExclusive) => {
            lemma_start_step(pre, post, p);
        },
        Phase::Startup(StartupState::Downgrade) => {
            assert(pre.procs.dom().contains(p) && observes_running(pre.procs[p]));
            lemma_grant_step(pre, post, p, Phase::Startup(StartupState::Done), LockMode::Shared);
        },
        Phase::Startup(StartupState::Done) => {
            assert(pre.procs.dom().contains(p) && observes_running(pre.procs[p]));
            lemma_phase_only_step(pre, post, p, Phase::Action);
        },
        Phase::Action => {
            assert(pre.procs.dom().contains(p) && observes_running(pre.procs[p]));
            lemma_phase_only_step(pre, post, p, Phase::Shutdown(ShutdownState::TryExclusive));
        },
        Phase::Shutdown(ShutdownState::TryExclusive) => {
            assert(pre.procs.dom().contains(p) && observes_running(pre.procs[p]));
            if can_grant(pre.locks, p, LockMode::Exclusive) && post == (SystemState {
                procs: pre.procs.insert(p, Phase::Shutdown(ShutdownState::TearDownUnderExclusive)),
                locks: grant(pre.locks, p, LockMode::Exclusive),
                resource: pre.resource,
                creations: pre.creations,
            }) {
                lemma_grant_step(
                    pre,
                    post,
                    p,
                    Phase::Shutdown(ShutdownState::TearDownUnderExclusive),
                    LockMode::Exclusive,
                );
            } else {
                lemma_phase_only_step(pre, post, p, Phase::Shutdown(ShutdownState::ReleaseLeaving));
            }
        },
        Phase::Shutdown(ShutdownState::ReleaseLeaving) => {
            lemma_release_step(pre, post, p, Phase::Shutdown(ShutdownState::Done(false)));
        },
        Phase::Shutdown(ShutdownState::TearDownUnderExclusive) => {
            lemma_teardown_step(pre, post, p, destroy);
        },
        Phase::Shutdown(ShutdownState::ReleaseAfterTearDown(did)) => {
            lemma_release_step(pre, post, p, Phase::Shutdown(ShutdownState::Done(did)));
        },
        Phase::Shutdown(ShutdownState::Done(_)) => {
            lemma_phase_only_step(pre, post, p, Phase::Finished);
        },
        Phase::Finished => {
            assert(false);
        },
    }
}

/// Some process can take a step between these two states.
pub open spec fn sys_step_some(pre: SystemState, post: SystemState, destroy: bool) -> bool {
    exists|p: int| sys_step(pre, post, p, destroy)
}

/// A run of the whole system: it begins fresh, and every successive
/// pair of states is one process's step.
pub open spec fn sys_trace(tr: Seq<SystemState>, destroy: bool) -> bool {
    &&& tr.len() > 0
    &&& sys_initial(tr[0])
    &&& forall|i: int| 0 <= i < tr.len() - 1 ==> #[trigger] sys_step_some(tr[i], tr[i + 1], destroy)
}

/// Every state of a run satisfies the system invariant; and when
/// teardowns stop rather than destroy, the creation accounting holds
/// throughout as well.
pub proof fn lemma_trace_inv(tr: Seq<SystemState>, destroy: bool, i: int)
    requires
        sys_trace(tr, destroy),
        0 <= i < tr.len(),
    ensures
        sys_inv(tr[i]),
        !destroy ==> creation_inv(tr[i]),
    decreases i,
{
    if i == 0 {
        lemma_initial_inv(tr[0]);
    } else {
        lemma_trace_inv(tr, destroy, i - 1);
        let j = i - 1;
        assert(sys_step_some(tr[j], tr[j + 1], destroy));
        let p = choose|p: int| #[trigger] sys_step(tr[j], tr[j + 1], p, destroy);
        lemma_step_preserves_inv(tr[j], tr[j + 1], p, destroy);
    }
}

/// At-most-one creation: however many processes race to bring up a
/// fresh resource and later stop it, in every reachable state of every
/// run the resource has been actually created at most once — every
/// other process finds it already there.
pub proof fn theorem_at_most_one_creation(tr: Seq<SystemState>, i: int)
    requires
        sys_trace(tr, false),
        0 <= i < tr.len(),
    ensures
        tr[i].creations <= 1,
{
    lemma_trace_inv(tr, false, i);
}

/// Whoever is running its action sees a running resource: startup never
/// hands control to the action before the resource is confirmed (or
/// made) running, and nobody can stop it while the action's shared lock
/// is held. In particular the resource — and its directory — is present
/// the whole time any action runs.
pub proof fn theorem_running_while_in_use(s: SystemState, p: int)
    requires
        sys_inv(s),
        s.procs.dom().contains(p),
        s.procs[p] == Phase::Action,
    ensures
        s.resource == ResourceState::Running,
{
}

/// No premature teardown: while process `a` is still inside its action
/// — holding its shared lock — any other process `b` that attempts the
/// shutdown upgrade must observe contention, bow out leaving the
/// resource exactly as it was, and let the remaining users keep it.
pub proof fn theorem_no_premature_teardown(
    s: SystemState,
    post: SystemState,
    a: int,
    b: int,
    destroy: bool,
)
    requires
        sys_inv(s),
        s.procs.dom().contains(a),
        s.procs[a] == Phase::Action,
        b != a,
        s.procs.dom().contains(b),
        s.procs[b] == Phase::Shutdown(ShutdownState::TryExclusive),
        sys_step(s, post, b, destroy),
    ensures
        !can_grant(s.locks, b, LockMode::Exclusive),
        post.procs[b] == Phase::Shutdown(ShutdownState::ReleaseLeaving),
        post.resource == s.resource,
{
    assert(mode_agrees(s, a));
    assert(s.locks.dom().contains(a));
}

} // verus!
