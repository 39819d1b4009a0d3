//! The acquisition and release protocol of a lock handle, as mathematics.
//!
//! A handle is driven by events. Each event moves it to a next state and
//! makes it answer with an action for the driver. The functions here say
//! which state and which action; `Lock` implements them.

use crate::error::LockError;
use crate::service::lease_options;
use etcd_client::{Error, LockOptions};
use tokio_util::sync::CancellationToken;
use vstd::prelude::*;
use vstd::utf8::encode_utf8;

verus! {

/// Time to live, in seconds, of the lease behind every acquisition.
pub const DEFAULT_TTL: i64 = 10;

/// Seconds to pause after the service has rejected an acquisition attempt.
pub const RETRY_INTERVAL_SECS: u64 = 2;

/// What an acquisition in progress is waiting for.
#[derive(Clone, Copy, Debug, PartialEq, Eq, Structural)]
pub enum Awaiting {
    /// No acquisition is in progress.
    Nothing,
    /// A lease was asked for.
    Lease,
    /// The lock was asked for, bound to this lease.
    Acquisition { lease: i64 },
    /// The lock is acquired, and the renewal task was ordered.
    Renewal,
    /// The service rejected the last attempt, and the retry pause runs.
    Retry,
}

/// What the driver reports to an acquisition.
#[derive(Debug)]
pub enum AcquireEvent {
    /// `Lock` was called.
    Begin,
    /// The lease request ended, with the lease's id or with an error.
    Lease(Result<i64, Error>),
    /// The lock request ended, with the key that the service assigned to this
    /// acquisition or with an error.
    Acquisition(Result<Vec<u8>, Error>),
    /// The renewal task was started, or could not be.
    Renewal(Result<(), Error>),
    /// The retry pause is over.
    Resumed,
}

/// What the driver reports to `Lock`: the acquisition went on, or the wait
/// timeout won the race against it.
#[derive(Debug)]
pub enum LockEvent {
    /// The acquisition went on: this happened to it.
    Progress(AcquireEvent),
    /// The wait timeout elapsed.
    TimedOut,
}

/// What a handle asks of the driver while it acquires the lock.
#[derive(Debug)]
pub enum LockAction {
    /// Ask the service for a lease that lives `ttl` seconds.
    GrantLease { ttl: i64 },
    /// Ask the service for the lock called `name`, with these options.
    Acquire { name: Vec<u8>, options: LockOptions },
    /// Start the task that keeps the lease alive until `cancel` fires.
    Renew { lease_id: i64, ttl: i64, cancel: CancellationToken },
    /// Wait `secs` seconds.
    Pause { secs: u64 },
    /// `Lock` is over, with this result.
    Done(Result<(), LockError>),
}

/// What a handle asks of the driver when it gives the lock back.
#[derive(Debug)]
pub enum UnlockAction {
    /// Nothing is to be sent: `Unlock` has succeeded.
    Done,
    /// Ask the service to release this key.
    Release { key: Vec<u8> },
}

/// The state of a lock handle.
pub struct LockView {
    /// The lock's logical name.
    pub name: Seq<char>,
    /// The key of the current acquisition; empty when there is none.
    pub current_key: Seq<u8>,
    /// Whether the handle keeps a cancellation signal.
    pub has_signal: bool,
    /// What the acquisition in progress waits for.
    pub awaiting: Awaiting,
}

/// A `LockAction` without what no function of the state can tell: the fresh
/// cancellation signal.
pub enum LockActionView {
    GrantLease { ttl: i64 },
    Acquire { name: Seq<u8>, options: LockOptions },
    Renew { lease_id: i64, ttl: i64 },
    Pause { secs: u64 },
    Done(Result<(), LockError>),
}

/// An `UnlockAction` over a sequence of bytes.
pub enum UnlockActionView {
    Done,
    Release { key: Seq<u8> },
}

impl View for LockAction {
    type V = LockActionView;

    open spec fn view(&self) -> LockActionView {
        match *self {
            LockAction::GrantLease { ttl } => LockActionView::GrantLease { ttl },
            LockAction::Acquire { name, options } => LockActionView::Acquire { name: name@, options },
            LockAction::Renew { lease_id, ttl, cancel } => LockActionView::Renew { lease_id, ttl },
            LockAction::Pause { secs } => LockActionView::Pause { secs },
            LockAction::Done(result) => LockActionView::Done(result),
        }
    }
}

impl View for UnlockAction {
    type V = UnlockActionView;

    open spec fn view(&self) -> UnlockActionView {
        match *self {
            UnlockAction::Done => UnlockActionView::Done,
            UnlockAction::Release { key } => UnlockActionView::Release { key: key@ },
        }
    }
}

impl LockView {
    /// A handle as the manager makes it: not held, nothing in progress.
    pub open spec fn fresh(name: Seq<char>) -> LockView {
        LockView { name, current_key: Seq::empty(), has_signal: false, awaiting: Awaiting::Nothing }
    }

    /// The handle holds the lock and its renewal task runs.
    pub open spec fn held(self) -> bool {
        self.has_signal && self.awaiting is Nothing
    }

    /// The handle neither holds the lock nor tries to.
    pub open spec fn idle(self) -> bool {
        !self.has_signal && self.awaiting is Nothing && self.current_key.len() == 0
    }

    /// What holds of every handle: a key is on record only together with a
    /// signal, and an acquisition keeps a signal exactly while it waits for
    /// its renewal task.
    pub open spec fn wf(self) -> bool {
        &&& self.current_key.len() > 0 ==> self.has_signal
        &&& self.awaiting is Renewal ==> self.has_signal
        &&& (self.awaiting is Lease || self.awaiting is Acquisition || self.awaiting is Retry)
            ==> !self.has_signal
    }

    /// A key is on record exactly when a signal is. This holds as long as the
    /// service assigns no empty key.
    pub open spec fn consistent(self) -> bool {
        self.current_key.len() > 0 <==> self.has_signal
    }
}

/// The state after an acquisition in progress was given up: nothing held,
/// nothing on record. A handle with no acquisition in progress stays as it is.
pub open spec fn abandoned(s: LockView) -> LockView {
    if s.awaiting is Nothing {
        s
    } else {
        LockView { current_key: Seq::empty(), has_signal: false, awaiting: Awaiting::Nothing, ..s }
    }
}

/// The state of the acquisition after `event`.
pub open spec fn acquire_next(s: LockView, event: AcquireEvent) -> LockView {
    match (s.awaiting, event) {
        (Awaiting::Nothing, AcquireEvent::Begin) => if s.has_signal {
            s
        } else {
            LockView { awaiting: Awaiting::Lease, ..s }
        },
        (Awaiting::Lease, AcquireEvent::Lease(Ok(lease))) => LockView {
            awaiting: Awaiting::Acquisition { lease },
            ..s
        },
        (Awaiting::Acquisition { lease }, AcquireEvent::Acquisition(Ok(key))) => LockView {
            current_key: key@,
            has_signal: true,
            awaiting: Awaiting::Renewal,
            ..s
        },
        (Awaiting::Acquisition { lease }, AcquireEvent::Acquisition(Err(_))) => LockView {
            awaiting: Awaiting::Retry,
            ..s
        },
        (Awaiting::Renewal, AcquireEvent::Renewal(Ok(_))) => LockView {
            awaiting: Awaiting::Nothing,
            ..s
        },
        (Awaiting::Retry, AcquireEvent::Resumed) => LockView { awaiting: Awaiting::Lease, ..s },
        _ => abandoned(s),
    }
}

/// What the acquisition asks of the driver in answer to `event`.
pub open spec fn acquire_action(s: LockView, event: AcquireEvent) -> LockActionView {
    match (s.awaiting, event) {
        (Awaiting::Nothing, AcquireEvent::Begin) => if s.has_signal {
            LockActionView::Done(Err(LockError::AlreadyHeld))
        } else {
            LockActionView::GrantLease { ttl: DEFAULT_TTL }
        },
        (Awaiting::Lease, AcquireEvent::Lease(Ok(lease))) => LockActionView::Acquire {
            name: encode_utf8(s.name),
            options: lease_options(lease),
        },
        (Awaiting::Lease, AcquireEvent::Lease(Err(e))) => LockActionView::Done(
            Err(LockError::LeaseGrant(e)),
        ),
        (Awaiting::Acquisition { lease }, AcquireEvent::Acquisition(Ok(_))) => LockActionView::Renew {
            lease_id: lease,
            ttl: DEFAULT_TTL,
        },
        (Awaiting::Acquisition { lease }, AcquireEvent::Acquisition(Err(_))) => LockActionView::Pause {
            secs: RETRY_INTERVAL_SECS,
        },
        (Awaiting::Renewal, AcquireEvent::Renewal(Ok(_))) => LockActionView::Done(Ok(())),
        (Awaiting::Renewal, AcquireEvent::Renewal(Err(e))) => LockActionView::Done(
            Err(LockError::Renewal(e)),
        ),
        (Awaiting::Retry, AcquireEvent::Resumed) => LockActionView::GrantLease { ttl: DEFAULT_TTL },
        _ => LockActionView::Done(Err(LockError::OutOfTurn)),
    }
}

/// The state of the handle after `event`, with the wait timeout in the race.
pub open spec fn lock_next(s: LockView, event: LockEvent) -> LockView {
    match event {
        LockEvent::Progress(e) => acquire_next(s, e),
        LockEvent::TimedOut => abandoned(s),
    }
}

/// What `Lock` asks of the driver in answer to `event`.
pub open spec fn lock_action(s: LockView, event: LockEvent) -> LockActionView {
    match event {
        LockEvent::Progress(e) => acquire_action(s, e),
        LockEvent::TimedOut => LockActionView::Done(Err(LockError::Timeout)),
    }
}

/// The state of the handle after `Unlock`.
pub open spec fn unlock_next(s: LockView) -> LockView {
    if s.has_signal {
        LockView { current_key: Seq::empty(), has_signal: false, awaiting: Awaiting::Nothing, ..s }
    } else {
        s
    }
}

/// What `Unlock` asks of the driver.
pub open spec fn unlock_action(s: LockView) -> UnlockActionView {
    if s.has_signal && s.current_key.len() > 0 {
        UnlockActionView::Release { key: s.current_key }
    } else {
        UnlockActionView::Done
    }
}

} // verus!
