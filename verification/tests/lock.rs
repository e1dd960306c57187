//! Tests for the advisory-lock typestate API, against real `flock` locks.
//!
//! Two handles opened on the same path contend with each other exactly
//! as two processes would, so mutual exclusion is observable here: while
//! one handle holds the exclusive lock, no other handle can lock at all;
//! while one holds a shared lock, others can share but none can lock
//! exclusively.

use postgresfixture::lock::UnlockedFile;
use postgresfixture::Either;

fn can_lock_exclusive(path: &str) -> bool {
    let probe = UnlockedFile::open(path).unwrap();
    matches!(probe.try_lock_exclusive().unwrap(), Either::Right(_))
}

fn can_lock_shared(path: &str) -> bool {
    let probe = UnlockedFile::open(path).unwrap();
    matches!(probe.try_lock_shared().unwrap(), Either::Right(_))
}

#[test]
fn file_lock_exclusive_takes_exclusive_flock() {
    let lock_dir = tempdir::TempDir::new("locks").unwrap();
    let lock_path = lock_dir.path().join("lock");
    let lock_path = lock_path.to_str().unwrap();
    let lock = UnlockedFile::open(lock_path).unwrap();

    assert!(can_lock_exclusive(lock_path));
    assert!(can_lock_shared(lock_path));

    let lock = lock.lock_exclusive().unwrap();

    assert!(!can_lock_exclusive(lock_path));
    assert!(!can_lock_shared(lock_path));

    lock.unlock().unwrap();

    assert!(can_lock_exclusive(lock_path));
    assert!(can_lock_shared(lock_path));
}

#[test]
fn file_try_lock_exclusive_does_not_block_on_existing_shared_lock() {
    let lock_dir = tempdir::TempDir::new("locks").unwrap();
    let lock_path = lock_dir.path().join("lock");
    let lock_path = lock_path.to_str().unwrap();

    let _lock_shared = UnlockedFile::open(lock_path).unwrap().lock_shared().unwrap();

    assert!(matches!(
        UnlockedFile::open(lock_path).unwrap().try_lock_exclusive(),
        Ok(Either::Left(_))
    ));
}

#[test]
fn file_try_lock_exclusive_does_not_block_on_existing_exclusive_lock() {
    let lock_dir = tempdir::TempDir::new("locks").unwrap();
    let lock_path = lock_dir.path().join("lock");
    let lock_path = lock_path.to_str().unwrap();

    let _lock_exclusive = UnlockedFile::open(lock_path).unwrap().lock_exclusive().unwrap();

    assert!(matches!(
        UnlockedFile::open(lock_path).unwrap().try_lock_exclusive(),
        Ok(Either::Left(_))
    ));
}

#[test]
fn any_number_of_handles_can_share_but_none_can_upgrade_past_another() {
    let lock_dir = tempdir::TempDir::new("locks").unwrap();
    let lock_path = lock_dir.path().join("lock");
    let lock_path = lock_path.to_str().unwrap();

    // Several shared holders coexist.
    let a = UnlockedFile::open(lock_path).unwrap().lock_shared().unwrap();
    let b = UnlockedFile::open(lock_path).unwrap().lock_shared().unwrap();
    let c = UnlockedFile::open(lock_path).unwrap().lock_shared().unwrap();

    // No one can go exclusive while the others hold shared locks.
    let a = match a.try_lock_exclusive().unwrap() {
        Either::Left(still_shared) => still_shared,
        Either::Right(_) => panic!("exclusive lock granted alongside shared holders"),
    };

    // Dropping the other holders releases their locks; then the upgrade
    // succeeds.
    drop(b);
    drop(c);
    assert!(matches!(a.try_lock_exclusive(), Ok(Either::Right(_))));
}

#[test]
fn downgrade_reopens_the_lock_for_sharing() {
    let lock_dir = tempdir::TempDir::new("locks").unwrap();
    let lock_path = lock_dir.path().join("lock");
    let lock_path = lock_path.to_str().unwrap();

    let exclusive = UnlockedFile::open(lock_path).unwrap().lock_exclusive().unwrap();
    assert!(!can_lock_shared(lock_path));

    let _shared = exclusive.lock_shared().unwrap();
    assert!(can_lock_shared(lock_path));
    assert!(!can_lock_exclusive(lock_path));
}

#[test]
fn dropping_a_handle_releases_its_lock() {
    let lock_dir = tempdir::TempDir::new("locks").unwrap();
    let lock_path = lock_dir.path().join("lock");
    let lock_path = lock_path.to_str().unwrap();

    let exclusive = UnlockedFile::open(lock_path).unwrap().lock_exclusive().unwrap();
    assert!(!can_lock_exclusive(lock_path));
    drop(exclusive);
    assert!(can_lock_exclusive(lock_path));
}
