//! Tests for the coordination protocol: the transition tables, the
//! backoff, the resource lifecycle model, and interleaved-scenario
//! walks of the protocol.

use postgresfixture::coordinate::{
    backoff_millis, fresh_backoff_millis, model_create, model_destroy, model_start, model_stop,
    shutdown_step, startup_step, ResourceState, ShutdownEvent, ShutdownState, StartupEvent,
    StartupState,
};

#[test]
fn backoff_is_floor_plus_draw_modulo_span() {
    assert_eq!(200, backoff_millis(0));
    assert_eq!(201, backoff_millis(1));
    assert_eq!(999, backoff_millis(799));
    assert_eq!(200, backoff_millis(800));
    assert_eq!(999, backoff_millis(4294966399));
}

#[test]
fn fresh_backoff_stays_in_the_window() {
    for _ in 0..1000 {
        let d = fresh_backoff_millis();
        assert!((200..1000).contains(&d));
    }
}

#[test]
fn startup_follows_the_exclusive_path() {
    // Acquire the exclusive lock, start the cluster, downgrade, done.
    let s = StartupState::TryExclusive;
    let s = startup_step(s, StartupEvent::ExclusiveAcquired).unwrap();
    assert_eq!(StartupState::StartUnderExclusive, s);
    let s = startup_step(s, StartupEvent::Started).unwrap();
    assert_eq!(StartupState::Downgrade, s);
    let s = startup_step(s, StartupEvent::SharedAcquired).unwrap();
    assert_eq!(StartupState::Done, s);
}

#[test]
fn startup_follows_the_contended_path() {
    // Contended: fall back to a shared lock and probe.
    let s = startup_step(StartupState::TryExclusive, StartupEvent::ExclusiveContended).unwrap();
    assert_eq!(StartupState::AwaitShared, s);
    let s = startup_step(s, StartupEvent::SharedAcquired).unwrap();
    assert_eq!(StartupState::ProbeUnderShared, s);
    // Running: done, under the shared lock.
    assert_eq!(
        Some(StartupState::Done),
        startup_step(s, StartupEvent::Running(true))
    );
    // Not running: release, back off, and retry from the top.
    let s = startup_step(s, StartupEvent::Running(false)).unwrap();
    assert_eq!(StartupState::ReleaseAndBackoff, s);
    assert_eq!(
        Some(StartupState::TryExclusive),
        startup_step(s, StartupEvent::BackedOff)
    );
}

#[test]
fn startup_rejects_events_out_of_order() {
    assert_eq!(None, startup_step(StartupState::TryExclusive, StartupEvent::SharedAcquired));
    assert_eq!(None, startup_step(StartupState::AwaitShared, StartupEvent::ExclusiveAcquired));
    assert_eq!(None, startup_step(StartupState::Done, StartupEvent::Running(true)));
    assert_eq!(None, startup_step(StartupState::StartUnderExclusive, StartupEvent::BackedOff));
}

#[test]
fn shutdown_leaves_the_cluster_to_remaining_users() {
    let s = shutdown_step(ShutdownState::TryExclusive, ShutdownEvent::ExclusiveContended).unwrap();
    assert_eq!(ShutdownState::ReleaseLeaving, s);
    assert_eq!(Some(ShutdownState::Done(false)), shutdown_step(s, ShutdownEvent::Released));
}

#[test]
fn shutdown_tears_down_as_the_last_user() {
    let s = shutdown_step(ShutdownState::TryExclusive, ShutdownEvent::ExclusiveAcquired).unwrap();
    assert_eq!(ShutdownState::TearDownUnderExclusive, s);
    let s = shutdown_step(s, ShutdownEvent::TornDown(true)).unwrap();
    assert_eq!(ShutdownState::ReleaseAfterTearDown(true), s);
    assert_eq!(Some(ShutdownState::Done(true)), shutdown_step(s, ShutdownEvent::Released));
}

#[test]
fn shutdown_treats_a_busy_teardown_as_benign() {
    // Between the upgrade and the teardown, someone else took over:
    // that is "someone else is handling it", not an error.
    let s = shutdown_step(
        ShutdownState::TearDownUnderExclusive,
        ShutdownEvent::TearDownBusy,
    )
    .unwrap();
    assert_eq!(ShutdownState::ReleaseAfterTearDown(false), s);
    assert_eq!(Some(ShutdownState::Done(false)), shutdown_step(s, ShutdownEvent::Released));
}

#[test]
fn shutdown_rejects_events_out_of_order() {
    assert_eq!(None, shutdown_step(ShutdownState::TryExclusive, ShutdownEvent::Released));
    assert_eq!(None, shutdown_step(ShutdownState::ReleaseLeaving, ShutdownEvent::TornDown(true)));
    assert_eq!(None, shutdown_step(ShutdownState::Done(true), ShutdownEvent::Released));
}

#[test]
fn lifecycle_operations_are_idempotent() {
    // Creating twice in sequence: (true, false).
    let (r, did) = model_create(ResourceState::Absent);
    assert!(did);
    assert_eq!(ResourceState::Stopped, r);
    let (r, did) = model_create(r);
    assert!(!did);
    assert_eq!(ResourceState::Stopped, r);
    // Starting an already-running resource: false, and no error.
    let (r, did) = model_start(ResourceState::Stopped);
    assert!(did);
    let (r, did2) = model_start(r);
    assert!(!did2);
    assert_eq!(ResourceState::Running, r);
    // Stopping a stopped resource: false.
    let (r, did) = model_stop(ResourceState::Stopped);
    assert!(!did);
    assert_eq!(ResourceState::Stopped, r);
    // Destroying an absent resource: false.
    let (r, did) = model_destroy(ResourceState::Absent);
    assert!(!did);
    assert_eq!(ResourceState::Absent, r);
    let _ = did;
}

/// One simulated participant: its startup machine, then its action,
/// then its shutdown machine, with a simulated lock slot.
#[derive(Clone, Copy, Debug, PartialEq)]
enum Hold {
    Nothing,
    Shared,
    Exclusive,
}

/// A simulated lock table for two participants, following the `flock`
/// rules: exclusive excludes everyone else; sharing is open to all.
fn try_exclusive(holds: &mut [Hold; 2], me: usize) -> bool {
    let other = 1 - me;
    if holds[other] == Hold::Nothing {
        holds[me] = Hold::Exclusive;
        true
    } else {
        false
    }
}

fn lock_shared(holds: &mut [Hold; 2], me: usize) -> bool {
    let other = 1 - me;
    if holds[other] == Hold::Exclusive {
        false
    } else {
        holds[me] = Hold::Shared;
        true
    }
}

fn unlock(holds: &mut [Hold; 2], me: usize) {
    holds[me] = Hold::Nothing;
}

#[test]
fn two_processes_race_to_start_and_stop_one_cluster() {
    // Both processes run the startup protocol against one fresh
    // resource; the interleaving makes A win the exclusive lock. Then
    // both run their actions, and their shutdowns overlap so the first
    // leaves the cluster running and the second stops it.
    let mut holds = [Hold::Nothing, Hold::Nothing];
    let mut resource = ResourceState::Absent;
    let mut creations = 0;

    // A wins the exclusive lock.
    assert!(try_exclusive(&mut holds, 0));
    let a = startup_step(StartupState::TryExclusive, StartupEvent::ExclusiveAcquired).unwrap();

    // B loses it, and blocks for a shared lock.
    assert!(!try_exclusive(&mut holds, 1));
    let b = startup_step(StartupState::TryExclusive, StartupEvent::ExclusiveContended).unwrap();
    assert!(!lock_shared(&mut holds, 1));  // still blocked: A holds exclusive

    // A creates and starts the resource, exactly once.
    assert_eq!(StartupState::StartUnderExclusive, a);
    let (next, created) = model_create(resource);
    resource = next;
    if created {
        creations += 1;
    }
    let (next, _started) = model_start(resource);
    resource = next;
    let a = startup_step(a, StartupEvent::Started).unwrap();

    // A downgrades; B's blocked shared request now goes through.
    holds[0] = Hold::Shared;
    let a = startup_step(a, StartupEvent::SharedAcquired).unwrap();
    assert_eq!(StartupState::Done, a);
    assert!(lock_shared(&mut holds, 1));
    let b = startup_step(b, StartupEvent::SharedAcquired).unwrap();

    // B probes: the resource is running — no second creation.
    assert_eq!(ResourceState::Running, resource);
    let b = startup_step(b, StartupEvent::Running(true)).unwrap();
    assert_eq!(StartupState::Done, b);
    assert_eq!(1, creations);

    // Both actions run against the running resource. A finishes first
    // and attempts shutdown while B still holds its shared lock.
    let sa = ShutdownState::TryExclusive;
    assert!(!try_exclusive(&mut holds, 0));
    let sa = shutdown_step(sa, ShutdownEvent::ExclusiveContended).unwrap();
    assert_eq!(ShutdownState::ReleaseLeaving, sa);
    unlock(&mut holds, 0);
    let sa = shutdown_step(sa, ShutdownEvent::Released).unwrap();
    assert_eq!(ShutdownState::Done(false), sa);
    // A left the resource running for B.
    assert_eq!(ResourceState::Running, resource);

    // B finishes; as the last user its upgrade succeeds and it stops
    // the cluster, leaving the data directory in place.
    let sb = ShutdownState::TryExclusive;
    assert!(try_exclusive(&mut holds, 1));
    let sb = shutdown_step(sb, ShutdownEvent::ExclusiveAcquired).unwrap();
    let (next, stopped) = model_stop(resource);
    resource = next;
    let sb = shutdown_step(sb, ShutdownEvent::TornDown(stopped)).unwrap();
    unlock(&mut holds, 1);
    let sb = shutdown_step(sb, ShutdownEvent::Released).unwrap();

    assert_eq!(ShutdownState::Done(true), sb);
    assert_eq!(ResourceState::Stopped, resource);
    assert_eq!(1, creations);
}

#[test]
fn destroy_waits_for_the_last_user() {
    // One process (A) destroys on shutdown, but another (B) is still
    // inside a long-running action under its shared lock: A must bow
    // out and leave the resource — and its directory — in place. Only
    // when B finishes does the destroying teardown succeed.
    let mut holds = [Hold::Shared, Hold::Shared];
    let mut resource = ResourceState::Running;

    // A tries to shut down while B is mid-action.
    assert!(!try_exclusive(&mut holds, 0));
    let sa = shutdown_step(ShutdownState::TryExclusive, ShutdownEvent::ExclusiveContended).unwrap();
    unlock(&mut holds, 0);
    let sa = shutdown_step(sa, ShutdownEvent::Released).unwrap();
    assert_eq!(ShutdownState::Done(false), sa);
    // The resource is untouched while B still uses it.
    assert_eq!(ResourceState::Running, resource);

    // B finishes its action and shuts down: now it is the last user,
    // and the destroy goes through.
    assert!(try_exclusive(&mut holds, 1));
    let sb = shutdown_step(ShutdownState::TryExclusive, ShutdownEvent::ExclusiveAcquired).unwrap();
    let (next, destroyed) = model_destroy(resource);
    resource = next;
    assert!(destroyed);
    let sb = shutdown_step(sb, ShutdownEvent::TornDown(destroyed)).unwrap();
    unlock(&mut holds, 1);
    let sb = shutdown_step(sb, ShutdownEvent::Released).unwrap();

    assert_eq!(ShutdownState::Done(true), sb);
    assert_eq!(ResourceState::Absent, resource);
}
