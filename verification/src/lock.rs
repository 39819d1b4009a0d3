//! The lock handle.

use crate::error::LockError;
use crate::protocol::{
    abandoned, acquire_action, acquire_next, lock_action, lock_next, unlock_action, unlock_next,
    AcquireEvent, Awaiting, LockAction, LockEvent, LockView, UnlockAction, DEFAULT_TTL,
    RETRY_INTERVAL_SECS,
};
use crate::service::lock_options;
use etcd_client::{Client, Error};
use tokio_util::sync::CancellationToken;
use vstd::prelude::*;
use vstd::string::StrSliceExecFns;

verus! {

/// A handle on one named lock.
///
/// The handle takes no step by itself. The driver tells it what happened
/// (`lock`, `unlock`), and does what the handle answers.
#[derive(Clone)]
pub struct Lock {
    client: Client,
    key: String,
    current_key: Vec<u8>,
    cancel_token: Option<CancellationToken>,
    awaiting: Awaiting,
}

impl View for Lock {
    type V = LockView;

    closed spec fn view(&self) -> LockView {
        LockView {
            name: self.key@,
            current_key: self.current_key@,
            has_signal: self.cancel_token is Some,
            awaiting: self.awaiting,
        }
    }
}

impl Lock {
    /// The connection that the handle is bound to.
    pub closed spec fn connection(&self) -> Client {
        self.client
    }

    /// The cancellation signal of the renewal task, while there is one.
    pub closed spec fn signal(&self) -> Option<CancellationToken> {
        self.cancel_token
    }

    /// A handle on the lock called `key`, bound to `client`: not held, and
    /// with no acquisition in progress.
    pub fn new(client: Client, key: String) -> (lock: Lock)
        ensures
            lock@ == LockView::fresh(key@),
            lock.connection() == client,
            lock.signal() is None,
    {
        Lock { client, key, current_key: Vec::new(), cancel_token: None, awaiting: Awaiting::Nothing }
    }

    /// Gives up the acquisition in progress, if there is one: fires and drops
    /// the signal, and forgets the key.
    fn abandon(&mut self)
        ensures
            final(self)@ == abandoned(old(self)@),
            final(self).connection() == old(self).connection(),
            final(self).signal() is Some <==> final(self)@.has_signal,
            final(self)@.has_signal ==> final(self).signal() == old(self).signal(),
    {
        match self.awaiting {
            Awaiting::Nothing => {},
            _ => {
                match &self.cancel_token {
                    Some(token) => token.cancel(),
                    None => {},
                }
                self.cancel_token = None;
                self.current_key = Vec::new();
                self.awaiting = Awaiting::Nothing;
            },
        }
    }

    /// One step of the acquisition loop.
    ///
    /// `Begin` asks for a lease of `DEFAULT_TTL` seconds. The lease's id leads
    /// to a lock request bound to that lease. The acquisition key is put on
    /// record together with a fresh cancellation signal, and a clone of the
    /// signal goes out with the order to start the renewal task. A rejected
    /// lock request leads to a pause of `RETRY_INTERVAL_SECS` seconds and
    /// then to a new lease. A failed lease request ends the acquisition, and
    /// so does an event that answers nothing the handle has asked for.
    pub fn try_acquire(&mut self, event: AcquireEvent) -> (action: LockAction)
        ensures
            final(self)@ == acquire_next(old(self)@, event),
            action@ == acquire_action(old(self)@, event),
            final(self).connection() == old(self).connection(),
            final(self).signal() is Some <==> final(self)@.has_signal,
            action matches LockAction::Renew { cancel, .. } ==> final(self).signal() == Some(cancel),
            !(action is Renew) && final(self)@.has_signal ==> final(self).signal() == old(
                self,
            ).signal(),
    {
        match self.awaiting {
            Awaiting::Nothing => match event {
                AcquireEvent::Begin => {
                    if self.cancel_token.is_some() {
                        LockAction::Done(Err(LockError::AlreadyHeld))
                    } else {
                        self.awaiting = Awaiting::Lease;
                        LockAction::GrantLease { ttl: DEFAULT_TTL }
                    }
                },
                _ => LockAction::Done(Err(LockError::OutOfTurn)),
            },
            Awaiting::Lease => match event {
                AcquireEvent::Lease(Ok(lease)) => {
                    self.awaiting = Awaiting::Acquisition { lease };
                    LockAction::Acquire {
                        name: self.key.as_str().as_bytes_vec(),
                        options: lock_options(lease),
                    }
                },
                AcquireEvent::Lease(Err(e)) => {
                    self.abandon();
                    LockAction::Done(Err(LockError::LeaseGrant(e)))
                },
                _ => {
                    self.abandon();
                    LockAction::Done(Err(LockError::OutOfTurn))
                },
            },
            Awaiting::Acquisition { lease } => match event {
                AcquireEvent::Acquisition(Ok(key)) => {
                    let token = CancellationToken::new();
                    let cancel = token.clone();
                    self.current_key = key;
                    self.cancel_token = Some(token);
                    self.awaiting = Awaiting::Renewal;
                    LockAction::Renew { lease_id: lease, ttl: DEFAULT_TTL, cancel }
                },
                AcquireEvent::Acquisition(Err(_)) => {
                    self.awaiting = Awaiting::Retry;
                    LockAction::Pause { secs: RETRY_INTERVAL_SECS }
                },
                _ => {
                    self.abandon();
                    LockAction::Done(Err(LockError::OutOfTurn))
                },
            },
            Awaiting::Renewal => match event {
                AcquireEvent::Renewal(Ok(_)) => {
                    self.awaiting = Awaiting::Nothing;
                    LockAction::Done(Ok(()))
                },
                AcquireEvent::Renewal(Err(e)) => {
                    self.abandon();
                    LockAction::Done(Err(LockError::Renewal(e)))
                },
                _ => {
                    self.abandon();
                    LockAction::Done(Err(LockError::OutOfTurn))
                },
            },
            Awaiting::Retry => match event {
                AcquireEvent::Resumed => {
                    self.awaiting = Awaiting::Lease;
                    LockAction::GrantLease { ttl: DEFAULT_TTL }
                },
                _ => {
                    self.abandon();
                    LockAction::Done(Err(LockError::OutOfTurn))
                },
            },
        }
    }

    /// One step of `Lock`: the race between the wait timeout and the
    /// acquisition loop.
    ///
    /// While the acquisition makes progress the handle answers as
    /// `try_acquire` does. When the timeout wins, the acquisition is given up
    /// and `Lock` ends with `LockError::Timeout`.
    pub fn lock(&mut self, event: LockEvent) -> (action: LockAction)
        ensures
            final(self)@ == lock_next(old(self)@, event),
            action@ == lock_action(old(self)@, event),
            final(self).connection() == old(self).connection(),
            final(self).signal() is Some <==> final(self)@.has_signal,
            action matches LockAction::Renew { cancel, .. } ==> final(self).signal() == Some(cancel),
            !(action is Renew) && final(self)@.has_signal ==> final(self).signal() == old(
                self,
            ).signal(),
    {
        match event {
            LockEvent::Progress(e) => self.try_acquire(e),
            LockEvent::TimedOut => {
                self.abandon();
                LockAction::Done(Err(LockError::Timeout))
            },
        }
    }

    /// `Unlock`: fires the cancellation signal, if there is one, and forgets
    /// it together with the acquisition key. The key, unless it is empty,
    /// goes out with the order to release it. A handle without a signal is
    /// left as it is, and nothing is to be sent.
    pub fn unlock(&mut self) -> (action: UnlockAction)
        ensures
            final(self)@ == unlock_next(old(self)@),
            action@ == unlock_action(old(self)@),
            final(self).connection() == old(self).connection(),
            final(self).signal() is None,
    {
        match &self.cancel_token {
            Some(token) => {
                token.cancel();
            },
            None => {
                return UnlockAction::Done;
            },
        }
        self.cancel_token = None;
        self.awaiting = Awaiting::Nothing;
        let mut key = Vec::new();
        std::mem::swap(&mut key, &mut self.current_key);
        if key.len() == 0 {
            UnlockAction::Done
        } else {
            UnlockAction::Release { key }
        }
    }

    /// The lock's logical name.
    pub fn key(&self) -> (key: &String)
        ensures
            key@ == self@.name,
    {
        &self.key
    }

    /// The key that the service assigned to the current acquisition; empty
    /// when there is none.
    pub fn current_key(&self) -> (key: &Vec<u8>)
        ensures
            key@ == self@.current_key,
    {
        &self.current_key
    }

    /// The cancellation signal of the renewal task, while there is one.
    pub fn cancel_token(&self) -> (token: &Option<CancellationToken>)
        ensures
            *token == self.signal(),
            token is Some <==> self@.has_signal,
    {
        &self.cancel_token
    }

    /// The connection that the handle is bound to.
    pub fn client(&self) -> (client: &Client)
        ensures
            *client == self.connection(),
    {
        &self.client
    }

    /// What the acquisition in progress waits for.
    pub fn awaiting(&self) -> (awaiting: Awaiting)
        ensures
            awaiting == self@.awaiting,
    {
        self.awaiting
    }

    /// Whether the handle holds the lock.
    pub fn is_held(&self) -> (held: bool)
        ensures
            held == self@.held(),
    {
        match self.awaiting {
            Awaiting::Nothing => self.cancel_token.is_some(),
            _ => false,
        }
    }

    /// The result of `Unlock` once the release request has ended.
    pub fn released(outcome: Result<(), Error>) -> (result: Result<(), LockError>)
        ensures
            result == match outcome {
                Ok(_) => Ok::<(), LockError>(()),
                Err(e) => Err(LockError::Release(e)),
            },
    {
        match outcome {
            Ok(_) => Ok(()),
            Err(e) => Err(LockError::Release(e)),
        }
    }
}

} // verus!
