use elock::{
    AcquireEvent, Awaiting, Lock, LockAction, LockError, LockEvent, UnlockAction, DEFAULT_TTL,
    RETRY_INTERVAL_SECS,
};
use etcd_client::{Client, Error};

fn connect() -> Client {
    let runtime = tokio::runtime::Builder::new_current_thread()
        .enable_all()
        .build()
        .unwrap();
    runtime
        .block_on(async { Client::connect(["127.0.0.1:2379"], None).await })
        .unwrap()
}

fn handle(name: &str) -> Lock {
    Lock::new(connect(), name.to_string())
}

fn refusal() -> Error {
    Error::InvalidArgs("held elsewhere".to_string())
}

fn progress(lock: &mut Lock, event: AcquireEvent) -> LockAction {
    lock.lock(LockEvent::Progress(event))
}

/// Drives a handle through an acquisition that the service grants at once.
fn acquire(lock: &mut Lock, lease: i64, key: &[u8]) -> tokio_util::sync::CancellationToken {
    assert!(matches!(
        progress(lock, AcquireEvent::Begin),
        LockAction::GrantLease { ttl: 10 }
    ));
    assert!(matches!(
        progress(lock, AcquireEvent::Lease(Ok(lease))),
        LockAction::Acquire { .. }
    ));
    let cancel = match progress(lock, AcquireEvent::Acquisition(Ok(key.to_vec()))) {
        LockAction::Renew { lease_id, ttl, cancel } => {
            assert_eq!(lease_id, lease);
            assert_eq!(ttl, 10);
            cancel
        }
        other => panic!("unexpected action {:?}", other),
    };
    assert!(matches!(
        progress(lock, AcquireEvent::Renewal(Ok(()))),
        LockAction::Done(Ok(()))
    ));
    cancel
}

#[test]
fn constants_are_ten_and_two_seconds() {
    assert_eq!(DEFAULT_TTL, 10);
    assert_eq!(RETRY_INTERVAL_SECS, 2);
}

#[test]
fn fresh_handle_is_not_held() {
    let lock = handle("/test/lock");
    assert_eq!(lock.key(), "/test/lock");
    assert!(lock.current_key().is_empty());
    assert!(lock.cancel_token().is_none());
    assert_eq!(lock.awaiting(), Awaiting::Nothing);
    assert!(!lock.is_held());
}

#[test]
fn unlock_without_prior_lock_is_a_noop() {
    let mut lock = handle("/test/lock");
    assert!(matches!(lock.unlock(), UnlockAction::Done));
    assert!(lock.current_key().is_empty());
    assert!(lock.cancel_token().is_none());
    assert_eq!(lock.awaiting(), Awaiting::Nothing);
    assert!(!lock.is_held());
}

#[test]
fn uncontended_lock_succeeds_at_the_first_attempt() {
    let mut lock = handle("/test/lock");

    match progress(&mut lock, AcquireEvent::Begin) {
        LockAction::GrantLease { ttl } => assert_eq!(ttl, 10),
        other => panic!("unexpected action {:?}", other),
    }
    assert_eq!(lock.awaiting(), Awaiting::Lease);

    match progress(&mut lock, AcquireEvent::Lease(Ok(7))) {
        LockAction::Acquire { name, options } => {
            assert_eq!(name, b"/test/lock".to_vec());
            let shown = format!("{:?}", options);
            assert!(shown.contains("lease: 7"), "{}", shown);
        }
        other => panic!("unexpected action {:?}", other),
    }
    assert_eq!(lock.awaiting(), Awaiting::Acquisition { lease: 7 });
    assert!(!lock.is_held());

    match progress(&mut lock, AcquireEvent::Acquisition(Ok(b"/test/lock/1f".to_vec()))) {
        LockAction::Renew { lease_id, ttl, cancel } => {
            assert_eq!(lease_id, 7);
            assert_eq!(ttl, 10);
            assert!(!cancel.is_cancelled());
            assert_eq!(lock.cancel_token().as_ref(), Some(&cancel));
        }
        other => panic!("unexpected action {:?}", other),
    }
    assert_eq!(lock.awaiting(), Awaiting::Renewal);
    assert!(!lock.is_held());

    assert!(matches!(
        progress(&mut lock, AcquireEvent::Renewal(Ok(()))),
        LockAction::Done(Ok(()))
    ));
    assert!(lock.is_held());
    assert_eq!(lock.current_key(), &b"/test/lock/1f".to_vec());
    assert!(!lock.current_key().is_empty());
    assert_eq!(lock.awaiting(), Awaiting::Nothing);
}

#[test]
fn lock_options_carry_the_granted_lease() {
    let mut lock = handle("a");
    progress(&mut lock, AcquireEvent::Begin);
    let first = match progress(&mut lock, AcquireEvent::Lease(Ok(-3))) {
        LockAction::Acquire { options, .. } => format!("{:?}", options),
        other => panic!("unexpected action {:?}", other),
    };
    let mut other = handle("a");
    progress(&mut other, AcquireEvent::Begin);
    let second = match progress(&mut other, AcquireEvent::Lease(Ok(i64::MAX))) {
        LockAction::Acquire { options, .. } => format!("{:?}", options),
        other => panic!("unexpected action {:?}", other),
    };
    assert!(first.contains("lease: -3"), "{}", first);
    assert!(second.contains("lease: 9223372036854775807"), "{}", second);
    assert!(first.contains("name: []"), "{}", first);
}

#[test]
fn lock_name_goes_out_as_utf8_bytes() {
    let mut lock = handle("é/锁");
    progress(&mut lock, AcquireEvent::Begin);
    match progress(&mut lock, AcquireEvent::Lease(Ok(1))) {
        LockAction::Acquire { name, .. } => {
            assert_eq!(name, vec![0xc3, 0xa9, b'/', 0xe9, 0x94, 0x81]);
        }
        other => panic!("unexpected action {:?}", other),
    }
}

#[test]
fn unlock_releases_exactly_the_acquired_key() {
    let mut lock = handle("/test/lock");
    let cancel = acquire(&mut lock, 7, b"/test/lock/694d");
    assert!(lock.is_held());
    assert!(!cancel.is_cancelled());

    match lock.unlock() {
        UnlockAction::Release { key } => {
            assert_eq!(key, b"/test/lock/694d".to_vec());
            assert_ne!(key, b"/test/lock".to_vec());
        }
        other => panic!("unexpected action {:?}", other),
    }
    assert!(lock.current_key().is_empty());
    assert!(lock.cancel_token().is_none());
    assert!(!lock.is_held());
    assert_eq!(lock.awaiting(), Awaiting::Nothing);
}

#[test]
fn unlock_fires_the_signal_of_the_renewal_task() {
    let mut lock = handle("/test/lock");
    let cancel = acquire(&mut lock, 7, b"k");
    let twin = cancel.clone();
    assert!(!cancel.is_cancelled());
    lock.unlock();
    assert!(cancel.is_cancelled());
    assert!(twin.is_cancelled());
}

#[test]
fn second_unlock_sends_nothing() {
    let mut lock = handle("/test/lock");
    acquire(&mut lock, 7, b"k");
    assert!(matches!(lock.unlock(), UnlockAction::Release { .. }));
    assert!(matches!(lock.unlock(), UnlockAction::Done));
    assert!(!lock.is_held());
}

#[test]
fn empty_service_key_is_not_released() {
    let mut lock = handle("/test/lock");
    let cancel = acquire(&mut lock, 7, b"");
    assert!(lock.is_held());
    assert!(lock.current_key().is_empty());
    assert!(matches!(lock.unlock(), UnlockAction::Done));
    assert!(cancel.is_cancelled());
    assert!(lock.cancel_token().is_none());
    assert!(!lock.is_held());
}

#[test]
fn rejected_attempts_pause_two_seconds_each() {
    let mut lock = handle("/test/lock");
    let mut paused: u64 = 0;
    assert!(matches!(
        progress(&mut lock, AcquireEvent::Begin),
        LockAction::GrantLease { ttl: 10 }
    ));
    let rejections: i64 = 3;
    let mut round: i64 = 0;
    while round < rejections {
        assert!(matches!(
            progress(&mut lock, AcquireEvent::Lease(Ok(100 + round))),
            LockAction::Acquire { .. }
        ));
        match progress(&mut lock, AcquireEvent::Acquisition(Err(refusal()))) {
            LockAction::Pause { secs } => {
                assert_eq!(secs, 2);
                paused += secs;
            }
            other => panic!("unexpected action {:?}", other),
        }
        assert_eq!(lock.awaiting(), Awaiting::Retry);
        assert!(!lock.is_held());
        assert!(lock.current_key().is_empty());
        match progress(&mut lock, AcquireEvent::Resumed) {
            LockAction::GrantLease { ttl } => assert_eq!(ttl, 10),
            other => panic!("unexpected action {:?}", other),
        }
        round += 1;
    }
    assert!(matches!(
        progress(&mut lock, AcquireEvent::Lease(Ok(200))),
        LockAction::Acquire { .. }
    ));
    match progress(&mut lock, AcquireEvent::Acquisition(Ok(b"won".to_vec()))) {
        LockAction::Renew { lease_id, .. } => assert_eq!(lease_id, 200),
        other => panic!("unexpected action {:?}", other),
    }
    assert!(matches!(
        progress(&mut lock, AcquireEvent::Renewal(Ok(()))),
        LockAction::Done(Ok(()))
    ));
    assert_eq!(paused, 6);
    assert!(lock.is_held());
    assert_eq!(lock.current_key(), &b"won".to_vec());
}

#[test]
fn timeout_while_the_lock_is_held_elsewhere() {
    let mut lock = handle("/test/lock");
    progress(&mut lock, AcquireEvent::Begin);
    progress(&mut lock, AcquireEvent::Lease(Ok(1)));
    assert!(matches!(
        progress(&mut lock, AcquireEvent::Acquisition(Err(refusal()))),
        LockAction::Pause { secs: 2 }
    ));
    assert!(matches!(
        lock.lock(LockEvent::TimedOut),
        LockAction::Done(Err(LockError::Timeout))
    ));
    assert!(!lock.is_held());
    assert!(lock.current_key().is_empty());
    assert!(lock.cancel_token().is_none());
    assert_eq!(lock.awaiting(), Awaiting::Nothing);
}

#[test]
fn timeout_ends_the_acquisition_at_every_point() {
    let mut waiting_for_lease = handle("a");
    progress(&mut waiting_for_lease, AcquireEvent::Begin);
    assert!(matches!(
        waiting_for_lease.lock(LockEvent::TimedOut),
        LockAction::Done(Err(LockError::Timeout))
    ));
    assert_eq!(waiting_for_lease.awaiting(), Awaiting::Nothing);

    let mut waiting_for_lock = handle("a");
    progress(&mut waiting_for_lock, AcquireEvent::Begin);
    progress(&mut waiting_for_lock, AcquireEvent::Lease(Ok(4)));
    assert!(matches!(
        waiting_for_lock.lock(LockEvent::TimedOut),
        LockAction::Done(Err(LockError::Timeout))
    ));
    assert_eq!(waiting_for_lock.awaiting(), Awaiting::Nothing);
    assert!(!waiting_for_lock.is_held());

    let mut never_begun = handle("a");
    assert!(matches!(
        never_begun.lock(LockEvent::TimedOut),
        LockAction::Done(Err(LockError::Timeout))
    ));
    assert!(!never_begun.is_held());
}

#[test]
fn timeout_before_the_renewal_task_runs_gives_the_lock_up() {
    let mut lock = handle("a");
    progress(&mut lock, AcquireEvent::Begin);
    progress(&mut lock, AcquireEvent::Lease(Ok(4)));
    let cancel = match progress(&mut lock, AcquireEvent::Acquisition(Ok(b"k".to_vec()))) {
        LockAction::Renew { cancel, .. } => cancel,
        other => panic!("unexpected action {:?}", other),
    };
    assert!(matches!(
        lock.lock(LockEvent::TimedOut),
        LockAction::Done(Err(LockError::Timeout))
    ));
    assert!(cancel.is_cancelled());
    assert!(!lock.is_held());
    assert!(lock.current_key().is_empty());
    assert!(lock.cancel_token().is_none());
}

#[test]
fn timeout_leaves_a_held_lock_held() {
    let mut lock = handle("a");
    let cancel = acquire(&mut lock, 1, b"k");
    assert!(matches!(
        lock.lock(LockEvent::TimedOut),
        LockAction::Done(Err(LockError::Timeout))
    ));
    assert!(lock.is_held());
    assert_eq!(lock.current_key(), &b"k".to_vec());
    assert!(!cancel.is_cancelled());
}

#[test]
fn failed_lease_grant_ends_lock_with_the_service_error() {
    let mut lock = handle("a");
    progress(&mut lock, AcquireEvent::Begin);
    match progress(
        &mut lock,
        AcquireEvent::Lease(Err(Error::InvalidArgs("no lease".to_string()))),
    ) {
        LockAction::Done(Err(LockError::LeaseGrant(Error::InvalidArgs(text)))) => {
            assert_eq!(text, "no lease")
        }
        other => panic!("unexpected action {:?}", other),
    }
    assert_eq!(lock.awaiting(), Awaiting::Nothing);
    assert!(!lock.is_held());
}

#[test]
fn failed_renewal_start_ends_lock_and_gives_the_lock_up() {
    let mut lock = handle("a");
    progress(&mut lock, AcquireEvent::Begin);
    progress(&mut lock, AcquireEvent::Lease(Ok(4)));
    let cancel = match progress(&mut lock, AcquireEvent::Acquisition(Ok(b"k".to_vec()))) {
        LockAction::Renew { cancel, .. } => cancel,
        other => panic!("unexpected action {:?}", other),
    };
    match progress(
        &mut lock,
        AcquireEvent::Renewal(Err(Error::LeaseKeepAliveError("no task".to_string()))),
    ) {
        LockAction::Done(Err(LockError::Renewal(Error::LeaseKeepAliveError(text)))) => {
            assert_eq!(text, "no task")
        }
        other => panic!("unexpected action {:?}", other),
    }
    assert!(cancel.is_cancelled());
    assert!(!lock.is_held());
    assert!(lock.current_key().is_empty());
    assert!(lock.cancel_token().is_none());
}

#[test]
fn lock_on_a_held_handle_is_refused() {
    let mut lock = handle("a");
    let cancel = acquire(&mut lock, 1, b"k");
    assert!(matches!(
        progress(&mut lock, AcquireEvent::Begin),
        LockAction::Done(Err(LockError::AlreadyHeld))
    ));
    assert!(lock.is_held());
    assert_eq!(lock.current_key(), &b"k".to_vec());
    assert!(!cancel.is_cancelled());
    assert_eq!(lock.cancel_token().as_ref(), Some(&cancel));
}

#[test]
fn event_out_of_turn_ends_the_acquisition() {
    let mut idle = handle("a");
    assert!(matches!(
        progress(&mut idle, AcquireEvent::Lease(Ok(1))),
        LockAction::Done(Err(LockError::OutOfTurn))
    ));
    assert_eq!(idle.awaiting(), Awaiting::Nothing);

    let mut lock = handle("a");
    progress(&mut lock, AcquireEvent::Begin);
    assert!(matches!(
        progress(&mut lock, AcquireEvent::Acquisition(Ok(b"k".to_vec()))),
        LockAction::Done(Err(LockError::OutOfTurn))
    ));
    assert_eq!(lock.awaiting(), Awaiting::Nothing);
    assert!(lock.current_key().is_empty());
    assert!(!lock.is_held());

    let mut begun_twice = handle("a");
    progress(&mut begun_twice, AcquireEvent::Begin);
    assert!(matches!(
        progress(&mut begun_twice, AcquireEvent::Begin),
        LockAction::Done(Err(LockError::OutOfTurn))
    ));
    assert_eq!(begun_twice.awaiting(), Awaiting::Nothing);

    let mut paused = handle("a");
    progress(&mut paused, AcquireEvent::Begin);
    progress(&mut paused, AcquireEvent::Lease(Ok(1)));
    progress(&mut paused, AcquireEvent::Acquisition(Err(refusal())));
    assert!(matches!(
        progress(&mut paused, AcquireEvent::Renewal(Ok(()))),
        LockAction::Done(Err(LockError::OutOfTurn))
    ));
    assert_eq!(paused.awaiting(), Awaiting::Nothing);
}

#[test]
fn lock_unlock_cycle_is_repeatable() {
    let mut lock = handle("/test/lock");
    let keys: [&[u8]; 3] = [b"/test/lock/1", b"/test/lock/2", b"/test/lock/3"];
    let mut lease: i64 = 40;
    for key in keys {
        let cancel = acquire(&mut lock, lease, key);
        assert!(lock.is_held());
        assert_eq!(lock.current_key(), &key.to_vec());
        match lock.unlock() {
            UnlockAction::Release { key: released } => assert_eq!(released, key.to_vec()),
            other => panic!("unexpected action {:?}", other),
        }
        assert!(cancel.is_cancelled());
        assert!(!lock.is_held());
        assert!(lock.current_key().is_empty());
        assert!(lock.cancel_token().is_none());
        assert_eq!(lock.awaiting(), Awaiting::Nothing);
        lease += 1;
    }
}

#[test]
fn every_acquisition_gets_a_signal_of_its_own() {
    let mut lock = handle("a");
    let first = acquire(&mut lock, 1, b"k1");
    lock.unlock();
    let second = acquire(&mut lock, 2, b"k2");
    assert!(first.is_cancelled());
    assert!(!second.is_cancelled());
    assert_ne!(first, second);
}

#[test]
fn try_acquire_steps_like_lock() {
    let mut lock = handle("a");
    assert!(matches!(
        lock.try_acquire(AcquireEvent::Begin),
        LockAction::GrantLease { ttl: 10 }
    ));
    assert!(matches!(
        lock.try_acquire(AcquireEvent::Lease(Ok(9))),
        LockAction::Acquire { .. }
    ));
    assert!(matches!(
        lock.try_acquire(AcquireEvent::Acquisition(Err(refusal()))),
        LockAction::Pause { secs: 2 }
    ));
    assert!(matches!(
        lock.try_acquire(AcquireEvent::Resumed),
        LockAction::GrantLease { ttl: 10 }
    ));
    assert_eq!(lock.awaiting(), Awaiting::Lease);
}

#[test]
fn release_outcome_becomes_the_result_of_unlock() {
    assert!(matches!(Lock::released(Ok(())), Ok(())));
    match Lock::released(Err(Error::InvalidArgs("gone".to_string()))) {
        Err(LockError::Release(Error::InvalidArgs(text))) => assert_eq!(text, "gone"),
        other => panic!("unexpected result {:?}", other),
    }
}

#[test]
fn cloned_handle_shares_the_signal() {
    let mut lock = handle("a");
    let cancel = acquire(&mut lock, 1, b"k");
    let mut copy = lock.clone();
    assert_eq!(copy.key(), "a");
    assert_eq!(copy.current_key(), &b"k".to_vec());
    assert!(copy.is_held());
    assert!(matches!(copy.unlock(), UnlockAction::Release { .. }));
    assert!(cancel.is_cancelled());
}
