//! File-based locking using `flock(2)`.
//!
//! You must start with an [`UnlockedFile`], then move between lock states
//! through the transition methods. Each transition consumes its handle
//! and returns a handle typed by the new state, so a caller can never
//! hold two conflicting views of the same lock. Non-blocking transitions
//! return [`Either`]: `Left` gives the original handle back (the lock was
//! contended), `Right` carries the handle in its new state.
//!
//! Dropping a handle closes the underlying file descriptor, which also
//! releases whatever advisory lock it held, so an early `return` or a
//! panic can never leave the lock held by a dead handle in this process.
//! The operating system releases advisory locks when the owning process
//! exits, so a crashed peer cannot deadlock anyone either.
//!
//! The lock *state* lives with the open file description, not with the
//! path: opening the same path twice yields two independent handles, and
//! the kernel arbitrates between them exactly as it does between handles
//! held by different processes.

use vstd::prelude::*;

use crate::util::{open_path, OpenKind};
use crate::Either;

verus! {

/// An OS-level failure while acquiring or releasing an advisory lock,
/// carrying the raw `errno`. "Contended" is not an error: it is an
/// expected outcome of a non-blocking transition, reported as a value.
#[derive(Clone, Copy, Debug, PartialEq, Eq, Structural)]
pub struct LockError {
    /// The raw OS error number.
    pub errno: i32,
}

/// The lock transitions that can be requested of the OS.
enum FlockOp {
    Shared,
    SharedNonblock,
    Exclusive,
    ExclusiveNonblock,
    Unlock,
    UnlockNonblock,
}

/// How the OS answered a lock transition request.
enum FlockReply {
    /// The requested transition took effect.
    Granted,
    /// A non-blocking request found the lock held in a conflicting mode.
    Contended,
    /// The OS failed the request with this `errno`.
    Failed(i32),
}

/// An open file descriptor on the lock file. Dropping it closes the
/// descriptor, which also releases any advisory lock it holds.
#[derive(Debug)]
struct LockFd {
    fd: i32,
}

impl Drop for LockFd {
    /// Relies on `nix::unistd::close`: closing the descriptor releases
    /// any `flock` lock held through it.
    #[verifier::external_body]
    fn drop(&mut self)
        opens_invariants none
        no_unwind
    {
        let _ = nix::unistd::close(self.fd);
    }
}

/// Relies on `nix::fcntl::flock`: applies or removes an advisory lock on
/// the open file description behind `fd`. A reply of `Contended` stands
/// for `Err(EAGAIN)`, which `flock` gives when a non-blocking request
/// conflicts with a lock held elsewhere; any other error comes back as
/// `Failed` with its `errno`.
#[verifier::external_body]
fn flock_request(fd: i32, op: FlockOp) -> (r: FlockReply) {
    let arg = match op {
        FlockOp::Shared => nix::fcntl::FlockArg::LockShared,
        FlockOp::SharedNonblock => nix::fcntl::FlockArg::LockSharedNonblock,
        FlockOp::Exclusive => nix::fcntl::FlockArg::LockExclusive,
        FlockOp::ExclusiveNonblock => nix::fcntl::FlockArg::LockExclusiveNonblock,
        FlockOp::Unlock => nix::fcntl::FlockArg::Unlock,
        FlockOp::UnlockNonblock => nix::fcntl::FlockArg::UnlockNonblock,
    };
    match nix::fcntl::flock(fd, arg) {
        Ok(()) => FlockReply::Granted,
        Err(nix::errno::Errno::EAGAIN) => FlockReply::Contended,
        Err(err) => FlockReply::Failed(err as i32),
    }
}

/// A handle on the lock file that holds no lock.
#[derive(Debug)]
pub struct UnlockedFile(LockFd);

/// A handle on the lock file that holds a shared lock.
#[derive(Debug)]
pub struct LockedFileShared(LockFd);

/// A handle on the lock file that holds an exclusive lock.
#[derive(Debug)]
pub struct LockedFileExclusive(LockFd);

impl View for UnlockedFile {
    type V = int;

    /// The handle's identity: its file descriptor.
    closed spec fn view(&self) -> int {
        self.0.fd as int
    }
}

impl View for LockedFileShared {
    type V = int;

    /// The handle's identity: its file descriptor.
    closed spec fn view(&self) -> int {
        self.0.fd as int
    }
}

impl View for LockedFileExclusive {
    type V = int;

    /// The handle's identity: its file descriptor.
    closed spec fn view(&self) -> int {
        self.0.fd as int
    }
}

impl UnlockedFile {
    /// Open — creating it first when necessary — the lock file at `path`.
    /// The new handle holds no lock. The file only ever carries lock
    /// state; no bytes are read from or written to it.
    pub fn open(path: &str) -> (r: Result<UnlockedFile, LockError>) {
        match open_path(path, OpenKind::LockFile) {
            Ok(fd) => Ok(UnlockedFile(LockFd { fd })),
            Err(errno) => Err(LockError { errno }),
        }
    }

    /// Try to take a shared lock without blocking. `Left` returns this
    /// handle unchanged: the lock was contended. Whether the OS grants
    /// the request depends on every other holder's lock; the granting
    /// rule is stated by [`can_grant`], and the sharing guarantee by
    /// [`lemma_sharing_allowed`].
    pub fn try_lock_shared(self) -> (r: Result<Either<UnlockedFile, LockedFileShared>, LockError>)
        ensures
            r matches Ok(Either::Left(u)) ==> u@ == self@,
            r matches Ok(Either::Right(s)) ==> s@ == self@,
    {
        let UnlockedFile(inner) = self;
        match flock_request(inner.fd, FlockOp::SharedNonblock) {
            FlockReply::Granted => Ok(Either::Right(LockedFileShared(inner))),
            FlockReply::Contended => Ok(Either::Left(UnlockedFile(inner))),
            FlockReply::Failed(errno) => Err(LockError { errno }),
        }
    }

    /// Take a shared lock, blocking until every conflicting holder has
    /// released.
    pub fn lock_shared(self) -> (r: Result<LockedFileShared, LockError>)
        ensures
            r matches Ok(s) ==> s@ == self@,
    {
        let UnlockedFile(inner) = self;
        match flock_request(inner.fd, FlockOp::Shared) {
            FlockReply::Granted => Ok(LockedFileShared(inner)),
            FlockReply::Contended => Err(LockError { errno: 11 }),
            FlockReply::Failed(errno) => Err(LockError { errno }),
        }
    }

    /// Try to take an exclusive lock without blocking. `Left` returns
    /// this handle unchanged: the lock was contended. Whether the OS
    /// grants the request depends on every other holder's lock; the
    /// granting rule is stated by [`can_grant`], and mutual exclusion by
    /// [`lemma_exclusive_unique`] and [`lemma_exclusive_excludes`].
    pub fn try_lock_exclusive(self) -> (r: Result<
        Either<UnlockedFile, LockedFileExclusive>,
        LockError,
    >)
        ensures
            r matches Ok(Either::Left(u)) ==> u@ == self@,
            r matches Ok(Either::Right(x)) ==> x@ == self@,
    {
        let UnlockedFile(inner) = self;
        match flock_request(inner.fd, FlockOp::ExclusiveNonblock) {
            FlockReply::Granted => Ok(Either::Right(LockedFileExclusive(inner))),
            FlockReply::Contended => Ok(Either::Left(UnlockedFile(inner))),
            FlockReply::Failed(errno) => Err(LockError { errno }),
        }
    }

    /// Take an exclusive lock, blocking until every other holder has
    /// released.
    pub fn lock_exclusive(self) -> (r: Result<LockedFileExclusive, LockError>)
        ensures
            r matches Ok(x) ==> x@ == self@,
    {
        let UnlockedFile(inner) = self;
        match flock_request(inner.fd, FlockOp::Exclusive) {
            FlockReply::Granted => Ok(LockedFileExclusive(inner)),
            FlockReply::Contended => Err(LockError { errno: 11 }),
            FlockReply::Failed(errno) => Err(LockError { errno }),
        }
    }
}

impl LockedFileShared {
    /// Try to upgrade to an exclusive lock without blocking. `Left`
    /// returns this handle unchanged, still holding its shared lock. The
    /// upgrade is granted only to a sole holder; the granting rule is
    /// stated by [`can_grant`].
    pub fn try_lock_exclusive(self) -> (r: Result<
        Either<LockedFileShared, LockedFileExclusive>,
        LockError,
    >)
        ensures
            r matches Ok(Either::Left(s)) ==> s@ == self@,
            r matches Ok(Either::Right(x)) ==> x@ == self@,
    {
        let LockedFileShared(inner) = self;
        match flock_request(inner.fd, FlockOp::ExclusiveNonblock) {
            FlockReply::Granted => Ok(Either::Right(LockedFileExclusive(inner))),
            FlockReply::Contended => Ok(Either::Left(LockedFileShared(inner))),
            FlockReply::Failed(errno) => Err(LockError { errno }),
        }
    }

    /// Upgrade to an exclusive lock, blocking until every other holder
    /// has released.
    pub fn lock_exclusive(self) -> (r: Result<LockedFileExclusive, LockError>)
        ensures
            r matches Ok(x) ==> x@ == self@,
    {
        let LockedFileShared(inner) = self;
        match flock_request(inner.fd, FlockOp::Exclusive) {
            FlockReply::Granted => Ok(LockedFileExclusive(inner)),
            FlockReply::Contended => Err(LockError { errno: 11 }),
            FlockReply::Failed(errno) => Err(LockError { errno }),
        }
    }

    /// Try to release the shared lock without blocking. `Left` returns
    /// this handle unchanged.
    pub fn try_unlock(self) -> (r: Result<Either<LockedFileShared, UnlockedFile>, LockError>)
        ensures
            r matches Ok(Either::Left(s)) ==> s@ == self@,
            r matches Ok(Either::Right(u)) ==> u@ == self@,
    {
        let LockedFileShared(inner) = self;
        match flock_request(inner.fd, FlockOp::UnlockNonblock) {
            FlockReply::Granted => Ok(Either::Right(UnlockedFile(inner))),
            FlockReply::Contended => Ok(Either::Left(LockedFileShared(inner))),
            FlockReply::Failed(errno) => Err(LockError { errno }),
        }
    }

    /// Release the shared lock. Release is immediate; this never actually
    /// blocks.
    pub fn unlock(self) -> (r: Result<UnlockedFile, LockError>)
        ensures
            r matches Ok(u) ==> u@ == self@,
    {
        let LockedFileShared(inner) = self;
        match flock_request(inner.fd, FlockOp::Unlock) {
            FlockReply::Granted => Ok(UnlockedFile(inner)),
            FlockReply::Contended => Err(LockError { errno: 11 }),
            FlockReply::Failed(errno) => Err(LockError { errno }),
        }
    }
}

impl LockedFileExclusive {
    /// Try to downgrade to a shared lock without blocking. `Left` returns
    /// this handle unchanged, still holding its exclusive lock. The
    /// granting rule is stated by [`can_grant`]; an exclusive holder is
    /// alone, so its own downgrade can only be refused by a kernel race.
    pub fn try_lock_shared(self) -> (r: Result<
        Either<LockedFileExclusive, LockedFileShared>,
        LockError,
    >)
        ensures
            r matches Ok(Either::Left(x)) ==> x@ == self@,
            r matches Ok(Either::Right(s)) ==> s@ == self@,
    {
        let LockedFileExclusive(inner) = self;
        match flock_request(inner.fd, FlockOp::SharedNonblock) {
            FlockReply::Granted => Ok(Either::Right(LockedFileShared(inner))),
            FlockReply::Contended => Ok(Either::Left(LockedFileExclusive(inner))),
            FlockReply::Failed(errno) => Err(LockError { errno }),
        }
    }

    /// Downgrade to a shared lock. The holder of the exclusive lock never
    /// waits on itself, so the downgrade cannot deadlock against this
    /// same handle.
    pub fn lock_shared(self) -> (r: Result<LockedFileShared, LockError>)
        ensures
            r matches Ok(s) ==> s@ == self@,
    {
        let LockedFileExclusive(inner) = self;
        match flock_request(inner.fd, FlockOp::Shared) {
            FlockReply::Granted => Ok(LockedFileShared(inner)),
            FlockReply::Contended => Err(LockError { errno: 11 }),
            FlockReply::Failed(errno) => Err(LockError { errno }),
        }
    }

    /// Try to release the exclusive lock without blocking. `Left` returns
    /// this handle unchanged.
    pub fn try_unlock(self) -> (r: Result<Either<LockedFileExclusive, UnlockedFile>, LockError>)
        ensures
            r matches Ok(Either::Left(x)) ==> x@ == self@,
            r matches Ok(Either::Right(u)) ==> u@ == self@,
    {
        let LockedFileExclusive(inner) = self;
        match flock_request(inner.fd, FlockOp::UnlockNonblock) {
            FlockReply::Granted => Ok(Either::Right(UnlockedFile(inner))),
            FlockReply::Contended => Ok(Either::Left(LockedFileExclusive(inner))),
            FlockReply::Failed(errno) => Err(LockError { errno }),
        }
    }

    /// Release the exclusive lock. Release is immediate; this never
    /// actually blocks.
    pub fn unlock(self) -> (r: Result<UnlockedFile, LockError>)
        ensures
            r matches Ok(u) ==> u@ == self@,
    {
        let LockedFileExclusive(inner) = self;
        match flock_request(inner.fd, FlockOp::Unlock) {
            FlockReply::Granted => Ok(UnlockedFile(inner)),
            FlockReply::Contended => Err(LockError { errno: 11 }),
            FlockReply::Failed(errno) => Err(LockError { errno }),
        }
    }
}

// ------------------------------------------------------------------
// A mathematical model of one lock file's advisory lock table.
//
// The table maps each holder — an open file description, in any process
// — to the mode it currently holds. The definitions below state the
// `flock` granting rule, and the lemmas after them state the guarantees
// the transition methods above lean on: at most one holder can hold the
// lock exclusively, an exclusive holder excludes every other holder, and
// any number of holders can share.
// ------------------------------------------------------------------

/// A mode an advisory lock can be held in.
#[derive(Clone, Copy, Debug, PartialEq, Eq, Structural)]
pub enum LockMode {
    Shared,
    Exclusive,
}

/// A well-formed lock table: an exclusive holder excludes every other
/// holder.
pub open spec fn lock_table_wf(table: Map<int, LockMode>) -> bool {
    forall|h: int|
        #[trigger] table.dom().contains(h) && table[h] is Exclusive ==> forall|k: int|
            table.dom().contains(k) ==> k == h
}

/// When does the OS grant holder `h` the lock in mode `m`? A shared
/// request needs every other holder to be shared; an exclusive request
/// needs every other holder gone. The requesting holder's own current
/// mode never blocks the request: the kernel converts it in place, which
/// is what makes upgrades and downgrades by the same handle possible.
pub open spec fn can_grant(table: Map<int, LockMode>, h: int, m: LockMode) -> bool {
    match m {
        LockMode::Shared => forall|k: int|
            #[trigger] table.dom().contains(k) && k != h ==> table[k] is Shared,
        LockMode::Exclusive => forall|k: int| #[trigger] table.dom().contains(k) ==> k == h,
    }
}

/// The table after holder `h` is granted mode `m`.
pub open spec fn grant(table: Map<int, LockMode>, h: int, m: LockMode) -> Map<int, LockMode> {
    table.insert(h, m)
}

/// The table after holder `h` releases (or closes its descriptor, or its
/// process exits — the OS releases the lock the same way in each case).
pub open spec fn release(table: Map<int, LockMode>, h: int) -> Map<int, LockMode> {
    table.remove(h)
}

/// Granting a request the rule allows keeps the table well-formed.
pub proof fn lemma_grant_preserves_wf(table: Map<int, LockMode>, h: int, m: LockMode)
    requires
        lock_table_wf(table),
        can_grant(table, h, m),
    ensures
        lock_table_wf(grant(table, h, m)),
{
}

/// Releasing always keeps the table well-formed.
pub proof fn lemma_release_preserves_wf(table: Map<int, LockMode>, h: int)
    requires
        lock_table_wf(table),
    ensures
        lock_table_wf(release(table, h)),
{
}

/// Mutual exclusion: however many holders race to lock exclusively, at
/// most one can hold the exclusive lock at any instant.
pub proof fn lemma_exclusive_unique(table: Map<int, LockMode>, a: int, b: int)
    requires
        lock_table_wf(table),
        table.dom().contains(a),
        table.dom().contains(b),
        table[a] is Exclusive,
        table[b] is Exclusive,
    ensures
        a == b,
{
}

/// While an exclusive holder exists, every other holder's non-blocking
/// request — shared or exclusive — is refused, and so reports
/// "contended".
pub proof fn lemma_exclusive_excludes(table: Map<int, LockMode>, a: int, b: int, m: LockMode)
    requires
        lock_table_wf(table),
        table.dom().contains(a),
        table[a] is Exclusive,
        b != a,
    ensures
        !can_grant(table, b, m),
{
    match m {
        LockMode::Shared => {
            assert(table.dom().contains(a) && a != b);
        },
        LockMode::Exclusive => {
            assert(table.dom().contains(a));
        },
    }
}

/// While any other holder exists — shared or exclusive — an exclusive
/// request by `b` is refused; and conversely, any number of holders can
/// hold the lock shared at once: a shared request is only ever refused
/// because of an exclusive holder.
pub proof fn lemma_sharing_allowed(table: Map<int, LockMode>, b: int)
    requires
        lock_table_wf(table),
        forall|k: int| #[trigger] table.dom().contains(k) ==> table[k] is Shared,
    ensures
        can_grant(table, b, LockMode::Shared),
        lock_table_wf(grant(table, b, LockMode::Shared)),
{
    lemma_grant_preserves_wf(table, b, LockMode::Shared);
}

} // verus!
