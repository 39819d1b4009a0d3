//! What holds of every run of a lock handle.
//!
//! A run is a sequence of events told to `Lock::lock`. The functions below
//! follow a handle along such a run; the lemmas state what comes of it.

use crate::error::LockError;
use crate::protocol::{
    lock_action, lock_next, unlock_action, unlock_next, AcquireEvent, Awaiting, LockActionView,
    LockEvent, LockView, UnlockActionView, RETRY_INTERVAL_SECS,
};
use etcd_client::Error;
use vstd::prelude::*;

verus! {

/// The state of a handle after it was told `events`, one after the other.
pub open spec fn lock_run(s: LockView, events: Seq<LockEvent>) -> LockView
    decreases events.len(),
{
    if events.len() == 0 {
        s
    } else {
        lock_next(lock_run(s, events.drop_last()), events.last())
    }
}

/// The handle's answer to the last of `events`.
pub open spec fn last_action(s: LockView, events: Seq<LockEvent>) -> LockActionView
    recommends
        events.len() > 0,
{
    lock_action(lock_run(s, events.drop_last()), events.last())
}

/// The seconds that an action makes the driver wait.
pub open spec fn pause_of(action: LockActionView) -> nat {
    match action {
        LockActionView::Pause { secs } => secs as nat,
        _ => 0,
    }
}

/// The seconds that the handle made the driver wait along `events`.
pub open spec fn paused_secs(s: LockView, events: Seq<LockEvent>) -> nat
    decreases events.len(),
{
    if events.len() == 0 {
        0
    } else {
        paused_secs(s, events.drop_last()) + pause_of(last_action(s, events))
    }
}

/// One attempt that the service rejects: a lease is granted, the lock request
/// fails, and the retry pause runs out.
pub open spec fn rejected_attempt(lease: i64, refusal: Error) -> Seq<LockEvent> {
    seq![
        LockEvent::Progress(AcquireEvent::Lease(Ok(lease))),
        LockEvent::Progress(AcquireEvent::Acquisition(Err(refusal))),
        LockEvent::Progress(AcquireEvent::Resumed),
    ]
}

/// `events` is `n` rejected attempts in a row.
pub open spec fn rejected_attempts(events: Seq<LockEvent>, n: nat) -> bool
    decreases n,
{
    if n == 0 {
        events.len() == 0
    } else {
        &&& events.len() == 3 * n
        &&& rejected_attempts(events.subrange(0, 3 * (n - 1)), (n - 1) as nat)
        &&& exists|lease: i64, refusal: Error|
            events.subrange(3 * (n - 1), events.len() as int) == #[trigger] rejected_attempt(
                lease,
                refusal,
            )
    }
}

/// One attempt that succeeds: a lease is granted, the service hands out
/// `key`, and the renewal task starts.
pub open spec fn granted_attempt(lease: i64, key: Vec<u8>) -> Seq<LockEvent> {
    seq![
        LockEvent::Progress(AcquireEvent::Lease(Ok(lease))),
        LockEvent::Progress(AcquireEvent::Acquisition(Ok(key))),
        LockEvent::Progress(AcquireEvent::Renewal(Ok(()))),
    ]
}

/// The handle that holds `key`.
pub open spec fn holding(s: LockView, key: Seq<u8>) -> LockView {
    LockView { current_key: key, has_signal: true, awaiting: Awaiting::Nothing, ..s }
}

/// Every step of `Lock` keeps a handle well formed.
pub proof fn lemma_lock_keeps_wf(s: LockView, event: LockEvent)
    requires
        s.wf(),
    ensures
        lock_next(s, event).wf(),
{
}

/// `Unlock` keeps a handle well formed.
pub proof fn lemma_unlock_keeps_wf(s: LockView)
    requires
        s.wf(),
    ensures
        unlock_next(s).wf(),
{
}

/// A key is on record exactly when a cancellation signal is: every step of
/// `Lock` keeps it so, unless the service assigns an empty key.
pub proof fn lemma_lock_keeps_consistent(s: LockView, event: LockEvent)
    requires
        s.wf(),
        s.consistent(),
        event matches LockEvent::Progress(AcquireEvent::Acquisition(Ok(key))) ==> key@.len() > 0,
    ensures
        lock_next(s, event).consistent(),
{
}

/// After `Unlock` neither a key nor a signal is on record, whatever the
/// handle was before.
pub proof fn lemma_unlock_clears(s: LockView)
    requires
        s.wf(),
    ensures
        unlock_next(s).current_key.len() == 0,
        !unlock_next(s).has_signal,
        unlock_next(s).consistent(),
{
}

/// A fresh handle is well formed, consistent and idle.
pub proof fn lemma_fresh_is_idle(name: Seq<char>)
    ensures
        LockView::fresh(name).wf(),
        LockView::fresh(name).consistent(),
        LockView::fresh(name).idle(),
{
}

/// Telling a handle `a` and then `b` is telling it `a + b`.
pub proof fn lemma_run_concat(s: LockView, a: Seq<LockEvent>, b: Seq<LockEvent>)
    ensures
        lock_run(s, a + b) == lock_run(lock_run(s, a), b),
        paused_secs(s, a + b) == paused_secs(s, a) + paused_secs(lock_run(s, a), b),
    decreases b.len(),
{
    if b.len() == 0 {
        assert(a + b =~= a);
    } else {
        assert((a + b).drop_last() =~= a + b.drop_last());
        assert((a + b).last() == b.last());
        lemma_run_concat(s, a, b.drop_last());
    }
}

/// The run over three events, step by step.
proof fn lemma_run_three(s: LockView, e0: LockEvent, e1: LockEvent, e2: LockEvent)
    ensures
        ({
            let s1 = lock_next(s, e0);
            let s2 = lock_next(s1, e1);
            &&& lock_run(s, seq![e0, e1, e2]) == lock_next(s2, e2)
            &&& paused_secs(s, seq![e0, e1, e2]) == pause_of(lock_action(s, e0)) + pause_of(
                lock_action(s1, e1),
            ) + pause_of(lock_action(s2, e2))
            &&& last_action(s, seq![e0, e1, e2]) == lock_action(s2, e2)
        }),
{
    let t3 = seq![e0, e1, e2];
    let t2 = seq![e0, e1];
    let t1 = seq![e0];
    let t0 = Seq::<LockEvent>::empty();
    assert(t3.drop_last() =~= t2);
    assert(t2.drop_last() =~= t1);
    assert(t1.drop_last() =~= t0);
    assert(t3.last() == e2);
    assert(t2.last() == e1);
    assert(t1.last() == e0);
    assert(lock_run(s, t0) == s);
    assert(lock_run(s, t1) == lock_next(s, e0));
    assert(lock_run(s, t2) == lock_next(lock_next(s, e0), e1));
    assert(paused_secs(s, t0) == 0);
    assert(paused_secs(s, t1) == pause_of(lock_action(s, e0)));
    assert(paused_secs(s, t2) == pause_of(lock_action(s, e0)) + pause_of(
        lock_action(lock_next(s, e0), e1),
    ));
}

/// The run over one event.
proof fn lemma_run_one(s: LockView, e: LockEvent)
    ensures
        lock_run(s, seq![e]) == lock_next(s, e),
        paused_secs(s, seq![e]) == pause_of(lock_action(s, e)),
        last_action(s, seq![e]) == lock_action(s, e),
{
    let t1 = seq![e];
    assert(t1.drop_last() =~= Seq::<LockEvent>::empty());
    assert(t1.last() == e);
    assert(lock_run(s, t1.drop_last()) == s);
    assert(paused_secs(s, t1.drop_last()) == 0);
}

/// The service assigns no empty key along `events`.
pub open spec fn keys_are_nonempty(events: Seq<LockEvent>) -> bool {
    forall|i: int|
        0 <= i < events.len() ==> (#[trigger] events[i] matches LockEvent::Progress(
            AcquireEvent::Acquisition(Ok(key)),
        ) ==> key@.len() > 0)
}

/// Whatever a well-formed handle is told, it stays well formed. As long as
/// the service assigns no empty key, a key stays on record exactly when a
/// cancellation signal is.
pub proof fn lemma_run_keeps_wf(s: LockView, events: Seq<LockEvent>)
    requires
        s.wf(),
    ensures
        lock_run(s, events).wf(),
        s.consistent() && keys_are_nonempty(events) ==> lock_run(s, events).consistent(),
    decreases events.len(),
{
    if events.len() > 0 {
        let before = events.drop_last();
        lemma_run_keeps_wf(s, before);
        lemma_lock_keeps_wf(lock_run(s, before), events.last());
        if s.consistent() && keys_are_nonempty(events) {
            assert forall|i: int| 0 <= i < before.len() implies (#[trigger] before[i]
                matches LockEvent::Progress(AcquireEvent::Acquisition(Ok(key))) ==> key@.len()
                > 0) by {
                assert(events[i] == before[i]);
            }
            assert(events.last() == events[events.len() - 1]);
            lemma_lock_keeps_consistent(lock_run(s, before), events.last());
        }
    }
}

/// A rejected attempt leaves a handle that waits for a lease as it was, and
/// costs one retry interval.
pub proof fn lemma_rejected_attempt(s: LockView, lease: i64, refusal: Error)
    requires
        s.awaiting is Lease,
    ensures
        lock_run(s, rejected_attempt(lease, refusal)) == s,
        paused_secs(s, rejected_attempt(lease, refusal)) == RETRY_INTERVAL_SECS,
{
    lemma_run_three(
        s,
        LockEvent::Progress(AcquireEvent::Lease(Ok(lease))),
        LockEvent::Progress(AcquireEvent::Acquisition(Err(refusal))),
        LockEvent::Progress(AcquireEvent::Resumed),
    );
}

/// `n` rejected attempts leave a handle that waits for a lease as it was, and
/// cost `n` retry intervals.
pub proof fn lemma_rejected_attempts(s: LockView, events: Seq<LockEvent>, n: nat)
    requires
        s.awaiting is Lease,
        rejected_attempts(events, n),
    ensures
        lock_run(s, events) == s,
        paused_secs(s, events) == n * RETRY_INTERVAL_SECS,
    decreases n,
{
    if n == 0 {
    } else {
        let head = events.subrange(0, 3 * (n - 1));
        let tail = events.subrange(3 * (n - 1), events.len() as int);
        let (lease, refusal) = choose|lease: i64, refusal: Error|
            tail == #[trigger] rejected_attempt(lease, refusal);
        assert(events =~= head + tail);
        lemma_rejected_attempts(s, head, (n - 1) as nat);
        lemma_rejected_attempt(s, lease, refusal);
        lemma_run_concat(s, head, tail);
        assert((n - 1) * RETRY_INTERVAL_SECS + RETRY_INTERVAL_SECS == n * RETRY_INTERVAL_SECS)
            by (nonlinear_arith);
    }
}

/// An attempt that the service grants makes a handle that waits for a lease
/// hold the lock under the key that the service assigned. `Lock` ends with
/// success, and the driver was not made to wait.
pub proof fn lemma_granted_attempt(s: LockView, lease: i64, key: Vec<u8>)
    requires
        s.awaiting is Lease,
    ensures
        lock_run(s, granted_attempt(lease, key)) == holding(s, key@),
        lock_run(s, granted_attempt(lease, key)).held(),
        paused_secs(s, granted_attempt(lease, key)) == 0,
        last_action(s, granted_attempt(lease, key)) == LockActionView::Done(Ok(())),
{
    lemma_run_three(
        s,
        LockEvent::Progress(AcquireEvent::Lease(Ok(lease))),
        LockEvent::Progress(AcquireEvent::Acquisition(Ok(key))),
        LockEvent::Progress(AcquireEvent::Renewal(Ok(()))),
    );
}

/// A lock that nobody holds is acquired at the first attempt: an idle handle
/// that is told to begin and then gets its lease and its key ends `Lock` with
/// success and holds the lock under that key, without a single pause. The key
/// on record is non-empty if the service's key is.
pub proof fn lemma_uncontended_lock_succeeds(s: LockView, lease: i64, key: Vec<u8>)
    requires
        s.idle(),
    ensures
        ({
            let events = seq![LockEvent::Progress(AcquireEvent::Begin)] + granted_attempt(
                lease,
                key,
            );
            &&& lock_run(s, events) == holding(s, key@)
            &&& lock_run(s, events).held()
            &&& lock_run(s, events).current_key == key@
            &&& last_action(s, events) == LockActionView::Done(Ok(()))
            &&& paused_secs(s, events) == 0
        }),
{
    let begin = seq![LockEvent::Progress(AcquireEvent::Begin)];
    let grant = granted_attempt(lease, key);
    let events = begin + grant;
    lemma_run_one(s, LockEvent::Progress(AcquireEvent::Begin));
    let s1 = lock_run(s, begin);
    lemma_granted_attempt(s1, lease, key);
    lemma_run_concat(s, begin, grant);
    assert(events.drop_last() =~= begin + grant.drop_last());
    assert(events.last() == grant.last());
    lemma_run_concat(s, begin, grant.drop_last());
}

/// Retry cadence: when the service rejects the first `n` attempts and grants
/// the next, the handle has made the driver wait `n` retry intervals before
/// `Lock` ends with success, and it holds the lock under the granted key.
pub proof fn lemma_retry_cadence(
    s: LockView,
    rejected: Seq<LockEvent>,
    n: nat,
    lease: i64,
    key: Vec<u8>,
)
    requires
        s.idle(),
        rejected_attempts(rejected, n),
    ensures
        ({
            let events = seq![LockEvent::Progress(AcquireEvent::Begin)] + rejected
                + granted_attempt(lease, key);
            &&& paused_secs(s, events) == n * RETRY_INTERVAL_SECS
            &&& lock_run(s, events) == holding(s, key@)
            &&& lock_run(s, events).held()
            &&& last_action(s, events) == LockActionView::Done(Ok(()))
        }),
{
    let begin = seq![LockEvent::Progress(AcquireEvent::Begin)];
    let grant = granted_attempt(lease, key);
    let front = begin + rejected;
    let events = front + grant;
    lemma_run_one(s, LockEvent::Progress(AcquireEvent::Begin));
    let s1 = lock_run(s, begin);
    lemma_rejected_attempts(s1, rejected, n);
    lemma_run_concat(s, begin, rejected);
    lemma_granted_attempt(s1, lease, key);
    lemma_run_concat(s, front, grant);
    assert(events.drop_last() =~= front + grant.drop_last());
    assert(events.last() == grant.last());
    lemma_run_concat(s, front, grant.drop_last());
}

/// When the wait timeout wins the race, `Lock` ends with `Timeout`, and a
/// handle that did not hold the lock does not hold it afterwards: no key and
/// no signal are on record, and nothing is in progress.
pub proof fn lemma_timeout_leaves_not_held(s: LockView)
    requires
        s.wf(),
        !s.held(),
    ensures
        lock_action(s, LockEvent::TimedOut) == LockActionView::Done(Err(LockError::Timeout)),
        lock_next(s, LockEvent::TimedOut).idle(),
{
}

/// While another holder keeps the lock every attempt is rejected. When the
/// wait timeout fires after `n` such attempts, `Lock` ends with `Timeout` and
/// the handle is as idle as it was before.
pub proof fn lemma_timeout_while_contended(s: LockView, rejected: Seq<LockEvent>, n: nat)
    requires
        s.idle(),
        rejected_attempts(rejected, n),
    ensures
        ({
            let events = seq![LockEvent::Progress(AcquireEvent::Begin)] + rejected
                + seq![LockEvent::TimedOut];
            &&& last_action(s, events) == LockActionView::Done(Err(LockError::Timeout))
            &&& lock_run(s, events) == s
            &&& lock_run(s, events).current_key.len() == 0
        }),
{
    let begin = seq![LockEvent::Progress(AcquireEvent::Begin)];
    let front = begin + rejected;
    let timeout = seq![LockEvent::TimedOut];
    let events = front + timeout;
    lemma_run_one(s, LockEvent::Progress(AcquireEvent::Begin));
    let s1 = lock_run(s, begin);
    lemma_rejected_attempts(s1, rejected, n);
    lemma_run_concat(s, begin, rejected);
    lemma_run_one(s1, LockEvent::TimedOut);
    lemma_run_concat(s, front, timeout);
    assert(events.drop_last() =~= front);
    assert(events.last() == LockEvent::TimedOut);
    assert(lock_run(s, events).current_key =~= s.current_key);
}

/// `Unlock` on a handle that keeps no signal, such as one that never
/// acquired the lock, changes nothing and sends nothing.
pub proof fn lemma_unlock_without_lock_is_noop(s: LockView)
    requires
        !s.has_signal,
    ensures
        unlock_next(s) == s,
        unlock_action(s) == UnlockActionView::Done,
{
}

/// `Unlock` after a successful `Lock` asks the service to release the very
/// key that the service assigned, and leaves neither key nor signal on
/// record.
pub proof fn lemma_unlock_releases_acquired_key(s: LockView, lease: i64, key: Vec<u8>)
    requires
        s.idle(),
        key@.len() > 0,
    ensures
        ({
            let events = seq![LockEvent::Progress(AcquireEvent::Begin)] + granted_attempt(
                lease,
                key,
            );
            let held = lock_run(s, events);
            &&& unlock_action(held) == UnlockActionView::Release { key: key@ }
            &&& unlock_next(held).current_key.len() == 0
            &&& !unlock_next(held).has_signal
        }),
{
    lemma_uncontended_lock_succeeds(s, lease, key);
}

/// A cycle of `Lock` and `Unlock` brings an idle handle back to where it
/// was, so the next cycle starts as the first did.
pub proof fn lemma_round_trip(s: LockView, lease: i64, key: Vec<u8>)
    requires
        s.idle(),
    ensures
        ({
            let events = seq![LockEvent::Progress(AcquireEvent::Begin)] + granted_attempt(
                lease,
                key,
            );
            &&& last_action(s, events) == LockActionView::Done(Ok(()))
            &&& unlock_next(lock_run(s, events)) == s
        }),
{
    lemma_uncontended_lock_succeeds(s, lease, key);
    assert(unlock_next(holding(s, key@)).current_key =~= s.current_key);
}

/// The state after a number of cycles of `Lock` and `Unlock`, one for each
/// pair of a lease and a key.
pub open spec fn after_cycles(s: LockView, grants: Seq<(i64, Vec<u8>)>) -> LockView
    decreases grants.len(),
{
    if grants.len() == 0 {
        s
    } else {
        let before = after_cycles(s, grants.drop_last());
        let events = seq![LockEvent::Progress(AcquireEvent::Begin)] + granted_attempt(
            grants.last().0,
            grants.last().1,
        );
        unlock_next(lock_run(before, events))
    }
}

/// Any number of cycles of `Lock` and `Unlock` in a row leaves an idle
/// handle as it was, and each `Lock` among them succeeds.
pub proof fn lemma_cycles_repeat(s: LockView, grants: Seq<(i64, Vec<u8>)>)
    requires
        s.idle(),
    ensures
        after_cycles(s, grants) == s,
        forall|i: int|
            0 <= i < grants.len() ==> last_action(
                #[trigger] after_cycles(s, grants.subrange(0, i)),
                seq![LockEvent::Progress(AcquireEvent::Begin)] + granted_attempt(
                    grants[i].0,
                    grants[i].1,
                ),
            ) == LockActionView::Done(Ok(())),
    decreases grants.len(),
{
    if grants.len() == 0 {
    } else {
        let front = grants.drop_last();
        lemma_cycles_repeat(s, front);
        lemma_round_trip(s, grants.last().0, grants.last().1);
        assert forall|i: int| 0 <= i < grants.len() implies last_action(
            #[trigger] after_cycles(s, grants.subrange(0, i)),
            seq![LockEvent::Progress(AcquireEvent::Begin)] + granted_attempt(
                grants[i].0,
                grants[i].1,
            ),
        ) == LockActionView::Done(Ok(())) by {
            lemma_cycles_repeat(s, grants.subrange(0, i));
            lemma_round_trip(s, grants[i].0, grants[i].1);
        }
    }
}

} // verus!
