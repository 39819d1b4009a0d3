//! The renewal task: the background activity that keeps a lease alive while
//! its lock is held.
//!
//! The task is a state machine like the handle. Its driver opens the
//! keep-alive channel, waits for ticks, sends pings and listens for the
//! service's answers and for the cancellation signal; the task decides what
//! comes next.

use etcd_client::Error;
use vstd::prelude::*;

verus! {

/// Seconds between two keep-alive pings of a lease that lives `ttl` seconds:
/// half the time to live, rounded down. A lease of less than two seconds has
/// no period.
pub open spec fn keep_alive_period(ttl: i64) -> Option<u64> {
    if ttl >= 2 {
        Some((ttl / 2) as u64)
    } else {
        None
    }
}

/// Computes `keep_alive_period`.
pub fn period_secs(ttl: i64) -> (period: Option<u64>)
    ensures
        period == keep_alive_period(ttl),
        period matches Some(secs) ==> secs >= 1 && 2 * secs <= ttl,
{
    if ttl >= 2 {
        Some((ttl / 2) as u64)
    } else {
        None
    }
}

/// What the renewal task is doing.
#[derive(Clone, Copy, Debug, PartialEq, Eq, Structural)]
pub enum Stage {
    /// The task was made and waits to be started.
    Created,
    /// The keep-alive channel is being opened.
    Opening,
    /// The task waits for the next tick.
    Ticking,
    /// A ping is being sent.
    Pinging,
    /// The task waits for the service's answer or for the signal.
    Listening,
    /// The task has ended.
    Stopped,
}

/// What the driver reports to the renewal task.
#[derive(Debug)]
pub enum KeepAliveEvent {
    /// The task was spawned.
    Started,
    /// The channel is open, or could not be opened.
    Opened(Result<(), Error>),
    /// The ticker fired.
    Ticked,
    /// The ping went out, or could not be sent.
    Pinged(Result<(), Error>),
    /// The cancellation signal fired.
    Cancelled,
    /// The response stream yielded: the lease's refreshed time to live, the
    /// end of the stream (`None`), or an error.
    Answered(Result<Option<i64>, Error>),
}

/// Why the renewal task ended.
#[derive(Debug)]
pub enum StopReason {
    /// The keep-alive channel could not be opened.
    ChannelUnavailable(Error),
    /// The lease is too short to have a keep-alive period.
    NoPeriod,
    /// A ping could not be sent.
    PingFailed(Error),
    /// The cancellation signal fired.
    Cancelled,
    /// The service ended the response stream.
    StreamEnded,
    /// The response stream failed.
    StreamFailed(Error),
    /// The task was told of something that it had not asked for.
    OutOfTurn,
    /// The task had ended before.
    AlreadyStopped,
}

/// What the renewal task asks of its driver.
#[derive(Debug)]
pub enum KeepAliveAction {
    /// Open the keep-alive channel of this lease.
    Open { lease_id: i64 },
    /// Wait for the next tick of a ticker that fires every `period_secs`
    /// seconds.
    Tick { period_secs: u64 },
    /// Send a keep-alive ping.
    Ping,
    /// Wait for the cancellation signal or for the next answer on the
    /// response stream, whichever comes first.
    Listen,
    /// End the task.
    Stop(StopReason),
}

/// The state of a renewal task.
pub struct KeepAliveView {
    /// The lease that the task keeps alive.
    pub lease_id: i64,
    /// The lease's time to live, in seconds.
    pub ttl: i64,
    /// What the task is doing.
    pub stage: Stage,
}

/// The stage of the task after `event`.
pub open spec fn keep_alive_next(s: KeepAliveView, event: KeepAliveEvent) -> KeepAliveView {
    let stage = match (s.stage, event) {
        (Stage::Created, KeepAliveEvent::Started) => Stage::Opening,
        (Stage::Opening, KeepAliveEvent::Opened(Ok(_))) => if keep_alive_period(s.ttl) is Some {
            Stage::Ticking
        } else {
            Stage::Stopped
        },
        (Stage::Ticking, KeepAliveEvent::Ticked) => Stage::Pinging,
        (Stage::Pinging, KeepAliveEvent::Pinged(Ok(_))) => Stage::Listening,
        (Stage::Listening, KeepAliveEvent::Answered(Ok(Some(_)))) => if keep_alive_period(s.ttl)
            is Some {
            Stage::Ticking
        } else {
            Stage::Stopped
        },
        _ => Stage::Stopped,
    };
    KeepAliveView { stage, ..s }
}

/// What the task asks of its driver in answer to `event`.
pub open spec fn keep_alive_action(s: KeepAliveView, event: KeepAliveEvent) -> KeepAliveAction {
    match (s.stage, event) {
        (Stage::Stopped, _) => KeepAliveAction::Stop(StopReason::AlreadyStopped),
        (Stage::Created, KeepAliveEvent::Started) => KeepAliveAction::Open { lease_id: s.lease_id },
        (Stage::Opening, KeepAliveEvent::Opened(Ok(_))) => match keep_alive_period(s.ttl) {
            Some(period_secs) => KeepAliveAction::Tick { period_secs },
            None => KeepAliveAction::Stop(StopReason::NoPeriod),
        },
        (Stage::Opening, KeepAliveEvent::Opened(Err(e))) => KeepAliveAction::Stop(
            StopReason::ChannelUnavailable(e),
        ),
        (Stage::Ticking, KeepAliveEvent::Ticked) => KeepAliveAction::Ping,
        (Stage::Pinging, KeepAliveEvent::Pinged(Ok(_))) => KeepAliveAction::Listen,
        (Stage::Pinging, KeepAliveEvent::Pinged(Err(e))) => KeepAliveAction::Stop(
            StopReason::PingFailed(e),
        ),
        (Stage::Listening, KeepAliveEvent::Cancelled) => KeepAliveAction::Stop(
            StopReason::Cancelled,
        ),
        (Stage::Listening, KeepAliveEvent::Answered(Ok(Some(_)))) => match keep_alive_period(
            s.ttl,
        ) {
            Some(period_secs) => KeepAliveAction::Tick { period_secs },
            None => KeepAliveAction::Stop(StopReason::NoPeriod),
        },
        (Stage::Listening, KeepAliveEvent::Answered(Ok(None))) => KeepAliveAction::Stop(
            StopReason::StreamEnded,
        ),
        (Stage::Listening, KeepAliveEvent::Answered(Err(e))) => KeepAliveAction::Stop(
            StopReason::StreamFailed(e),
        ),
        _ => KeepAliveAction::Stop(StopReason::OutOfTurn),
    }
}

/// The renewal task of one lease.
#[derive(Debug)]
pub struct KeepAlive {
    lease_id: i64,
    ttl: i64,
    stage: Stage,
}

impl View for KeepAlive {
    type V = KeepAliveView;

    closed spec fn view(&self) -> KeepAliveView {
        KeepAliveView { lease_id: self.lease_id, ttl: self.ttl, stage: self.stage }
    }
}

impl KeepAlive {
    /// The renewal task of the lease `lease_id`, which lives `ttl` seconds.
    pub fn new(lease_id: i64, ttl: i64) -> (task: KeepAlive)
        ensures
            task@ == (KeepAliveView { lease_id, ttl, stage: Stage::Created }),
    {
        KeepAlive { lease_id, ttl, stage: Stage::Created }
    }

    /// The lease that the task keeps alive.
    pub fn lease_id(&self) -> (id: i64)
        ensures
            id == self@.lease_id,
    {
        self.lease_id
    }

    /// The lease's time to live, in seconds.
    pub fn ttl(&self) -> (ttl: i64)
        ensures
            ttl == self@.ttl,
    {
        self.ttl
    }

    /// What the task is doing.
    pub fn stage(&self) -> (stage: Stage)
        ensures
            stage == self@.stage,
    {
        self.stage
    }

    /// Whether the task has ended.
    pub fn is_stopped(&self) -> (stopped: bool)
        ensures
            stopped == (self@.stage is Stopped),
    {
        match self.stage {
            Stage::Stopped => true,
            _ => false,
        }
    }

    /// Ends the task, for this reason.
    fn stop(&mut self, reason: StopReason) -> (action: KeepAliveAction)
        ensures
            final(self)@ == (KeepAliveView { stage: Stage::Stopped, ..old(self)@ }),
            action == KeepAliveAction::Stop(reason),
    {
        self.stage = Stage::Stopped;
        KeepAliveAction::Stop(reason)
    }

    /// Goes on to the next tick, or ends the task if the lease has no
    /// keep-alive period.
    fn await_tick(&mut self) -> (action: KeepAliveAction)
        ensures
            final(self)@ == (KeepAliveView {
                stage: if keep_alive_period(old(self)@.ttl) is Some {
                    Stage::Ticking
                } else {
                    Stage::Stopped
                },
                ..old(self)@
            }),
            action == match keep_alive_period(old(self)@.ttl) {
                Some(period_secs) => KeepAliveAction::Tick { period_secs },
                None => KeepAliveAction::Stop(StopReason::NoPeriod),
            },
    {
        match period_secs(self.ttl) {
            Some(period_secs) => {
                self.stage = Stage::Ticking;
                KeepAliveAction::Tick { period_secs }
            },
            None => self.stop(StopReason::NoPeriod),
        }
    }

    /// One step of the renewal task.
    ///
    /// Once started the task has the keep-alive channel opened. Then it goes
    /// round: it waits for a tick of half the lease's time to live, sends a
    /// ping, and listens. An answer with a refreshed time to live starts the
    /// next round. The task ends when the channel cannot be opened, when a
    /// ping cannot be sent, when the cancellation signal fires while it
    /// listens, when the response stream ends or fails, and when it is told
    /// of something that it has not asked for. Once ended it stays so.
    pub fn step(&mut self, event: KeepAliveEvent) -> (action: KeepAliveAction)
        ensures
            final(self)@ == keep_alive_next(old(self)@, event),
            action == keep_alive_action(old(self)@, event),
    {
        match self.stage {
            Stage::Stopped => KeepAliveAction::Stop(StopReason::AlreadyStopped),
            Stage::Created => match event {
                KeepAliveEvent::Started => {
                    self.stage = Stage::Opening;
                    KeepAliveAction::Open { lease_id: self.lease_id }
                },
                _ => self.stop(StopReason::OutOfTurn),
            },
            Stage::Opening => match event {
                KeepAliveEvent::Opened(Ok(_)) => self.await_tick(),
                KeepAliveEvent::Opened(Err(e)) => self.stop(StopReason::ChannelUnavailable(e)),
                _ => self.stop(StopReason::OutOfTurn),
            },
            Stage::Ticking => match event {
                KeepAliveEvent::Ticked => {
                    self.stage = Stage::Pinging;
                    KeepAliveAction::Ping
                },
                _ => self.stop(StopReason::OutOfTurn),
            },
            Stage::Pinging => match event {
                KeepAliveEvent::Pinged(Ok(_)) => {
                    self.stage = Stage::Listening;
                    KeepAliveAction::Listen
                },
                KeepAliveEvent::Pinged(Err(e)) => self.stop(StopReason::PingFailed(e)),
                _ => self.stop(StopReason::OutOfTurn),
            },
            Stage::Listening => match event {
                KeepAliveEvent::Cancelled => self.stop(StopReason::Cancelled),
                KeepAliveEvent::Answered(Ok(Some(_))) => self.await_tick(),
                KeepAliveEvent::Answered(Ok(None)) => self.stop(StopReason::StreamEnded),
                KeepAliveEvent::Answered(Err(e)) => self.stop(StopReason::StreamFailed(e)),
                _ => self.stop(StopReason::OutOfTurn),
            },
        }
    }
}

/// The state of a task after it was told `events`, one after the other.
pub open spec fn keep_alive_run(s: KeepAliveView, events: Seq<KeepAliveEvent>) -> KeepAliveView
    decreases events.len(),
{
    if events.len() == 0 {
        s
    } else {
        keep_alive_next(keep_alive_run(s, events.drop_last()), events.last())
    }
}

/// The number of pings that the task ordered along `events`.
pub open spec fn pings(s: KeepAliveView, events: Seq<KeepAliveEvent>) -> nat
    decreases events.len(),
{
    if events.len() == 0 {
        0
    } else {
        let before = events.drop_last();
        let last = keep_alive_action(keep_alive_run(s, before), events.last());
        pings(s, before) + if last is Ping {
            1nat
        } else {
            0nat
        }
    }
}

/// The task orders a ping only in answer to a tick that it waited for, and
/// it waits for a tick of half the lease's time to live and of no other
/// period.
pub proof fn lemma_ping_follows_tick(s: KeepAliveView, event: KeepAliveEvent)
    ensures
        keep_alive_action(s, event) is Ping ==> s.stage is Ticking && event is Ticked,
        keep_alive_action(s, event) matches KeepAliveAction::Tick { period_secs }
            ==> keep_alive_period(s.ttl) == Some(period_secs) && 2 * period_secs <= s.ttl
            && period_secs >= 1,
{
}

/// Every step keeps the lease and its time to live, and a task that ends says
/// so: its stage is `Stopped` exactly when its answer is `Stop`.
pub proof fn lemma_stop_is_final(s: KeepAliveView, event: KeepAliveEvent)
    ensures
        keep_alive_next(s, event).lease_id == s.lease_id,
        keep_alive_next(s, event).ttl == s.ttl,
        keep_alive_next(s, event).stage is Stopped <==> keep_alive_action(s, event) is Stop,
{
}

/// The cancellation signal ends a task that listens, and with it the pings.
pub proof fn lemma_cancel_stops(s: KeepAliveView)
    requires
        s.stage is Listening,
    ensures
        keep_alive_next(s, KeepAliveEvent::Cancelled).stage is Stopped,
        keep_alive_action(s, KeepAliveEvent::Cancelled) == KeepAliveAction::Stop(
            StopReason::Cancelled,
        ),
{
}

/// A task that has ended stays so and orders no ping, whatever it is told.
pub proof fn lemma_stopped_is_silent(s: KeepAliveView, events: Seq<KeepAliveEvent>)
    requires
        s.stage is Stopped,
    ensures
        keep_alive_run(s, events) == s,
        pings(s, events) == 0,
    decreases events.len(),
{
    if events.len() > 0 {
        lemma_stopped_is_silent(s, events.drop_last());
    }
}

/// Telling a task `a` and then `b` is telling it `a + b`.
pub proof fn lemma_keep_alive_run_concat(
    s: KeepAliveView,
    a: Seq<KeepAliveEvent>,
    b: Seq<KeepAliveEvent>,
)
    ensures
        keep_alive_run(s, a + b) == keep_alive_run(keep_alive_run(s, a), b),
        pings(s, a + b) == pings(s, a) + pings(keep_alive_run(s, a), b),
    decreases b.len(),
{
    if b.len() == 0 {
        assert(a + b =~= a);
    } else {
        assert((a + b).drop_last() =~= a + b.drop_last());
        assert((a + b).last() == b.last());
        lemma_keep_alive_run_concat(s, a, b.drop_last());
    }
}

/// Once a listening task has been told of the cancellation signal it orders
/// no further ping: whatever it was told `before` and whatever it is told
/// `after`, it has ordered as many pings at the end as it had when the
/// signal fired.
pub proof fn lemma_no_ping_after_cancel(
    s: KeepAliveView,
    before: Seq<KeepAliveEvent>,
    after: Seq<KeepAliveEvent>,
)
    requires
        keep_alive_run(s, before).stage is Listening,
    ensures
        pings(s, before + seq![KeepAliveEvent::Cancelled] + after) == pings(s, before),
        keep_alive_run(s, before + seq![KeepAliveEvent::Cancelled] + after).stage is Stopped,
{
    let cancel = seq![KeepAliveEvent::Cancelled];
    let listening = keep_alive_run(s, before);
    lemma_keep_alive_run_concat(s, before, cancel);
    assert(cancel.drop_last() =~= Seq::<KeepAliveEvent>::empty());
    assert(cancel.last() == KeepAliveEvent::Cancelled);
    assert(keep_alive_run(listening, cancel.drop_last()) == listening);
    assert(pings(listening, cancel.drop_last()) == 0);
    let stopped = keep_alive_run(listening, cancel);
    assert(stopped.stage is Stopped);
    assert(pings(listening, cancel) == 0);
    lemma_keep_alive_run_concat(s, before + cancel, after);
    lemma_stopped_is_silent(stopped, after);
}

/// One round of a task that waits for a tick: the tick, the ping, and an
/// answer that refreshes the lease. The round orders exactly one ping and
/// leaves the task waiting for the next tick, of the same period.
pub proof fn lemma_round_pings_once(s: KeepAliveView, refreshed: i64)
    requires
        s.stage is Ticking,
        keep_alive_period(s.ttl) is Some,
    ensures
        ({
            let round = seq![
                KeepAliveEvent::Ticked,
                KeepAliveEvent::Pinged(Ok(())),
                KeepAliveEvent::Answered(Ok(Some(refreshed))),
            ];
            &&& keep_alive_run(s, round) == s
            &&& pings(s, round) == 1
            &&& keep_alive_action(
                keep_alive_run(s, round.drop_last()),
                round.last(),
            ) == (KeepAliveAction::Tick { period_secs: keep_alive_period(s.ttl).unwrap() })
        }),
{
    let e0 = KeepAliveEvent::Ticked;
    let e1 = KeepAliveEvent::Pinged(Ok(()));
    let e2 = KeepAliveEvent::Answered(Ok(Some(refreshed)));
    let t3 = seq![e0, e1, e2];
    let t2 = seq![e0, e1];
    let t1 = seq![e0];
    let t0 = Seq::<KeepAliveEvent>::empty();
    assert(t3.drop_last() =~= t2);
    assert(t2.drop_last() =~= t1);
    assert(t1.drop_last() =~= t0);
    assert(t3.last() == e2);
    assert(t2.last() == e1);
    assert(t1.last() == e0);
    assert(keep_alive_run(s, t0) == s);
    assert(pings(s, t0) == 0);
    assert(keep_alive_run(s, t1).stage is Pinging);
    assert(pings(s, t1) == 1);
    assert(keep_alive_run(s, t2).stage is Listening);
    assert(pings(s, t2) == 1);
}

} // verus!
