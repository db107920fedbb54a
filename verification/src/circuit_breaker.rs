//! A circuit breaker: it stops the calls to a provider that keeps failing, and
//! lets one probe at a time through once the provider has had time to recover.
//!
//! ```text
//! CLOSED -- N failures --> OPEN -- cooldown --> HALF_OPEN -- M successes --> CLOSED
//!                            ^                      |
//!                            +------- failure ------+
//! ```

use crate::clock::{self, Timestamp};
use vstd::prelude::*;

verus! {

#[derive(Debug, Clone, Copy, PartialEq, Eq, Structural)]
pub enum BreakerState {
    /// Normal operation: requests pass.
    Closed,
    /// Tripped: requests are turned away.
    Open,
    /// Probing: one request at a time passes, and its outcome decides what follows.
    HalfOpen,
}

impl BreakerState {
    /// The name of the state.
    pub open spec fn name(self) -> Seq<char> {
        match self {
            BreakerState::Closed => "closed"@,
            BreakerState::Open => "open"@,
            BreakerState::HalfOpen => "half_open"@,
        }
    }

    /// The name of the state, for health reports.
    pub fn as_str(&self) -> (r: &'static str)
        ensures
            r@ == self.name(),
    {
        match self {
            BreakerState::Closed => "closed",
            BreakerState::Open => "open",
            BreakerState::HalfOpen => "half_open",
        }
    }
}

/// What a circuit breaker is, as a mathematical value. Points in time are
/// counted in nanoseconds.
pub struct BreakerModel {
    pub state: BreakerState,
    /// Failures since the last success or reset.
    pub failures: int,
    /// Successes since the breaker began to probe; 0 while it is not probing.
    pub successes: int,
    /// When the breaker last tripped; nothing while it is closed.
    pub opened_at: Option<int>,
    /// When the probe that is out was let through; nothing while none is.
    pub probe_at: Option<int>,
    pub failure_threshold: int,
    pub cooldown_secs: int,
    pub success_threshold: int,
}

impl BreakerModel {
    /// A breaker that has seen no request yet.
    pub open spec fn fresh(
        failure_threshold: int,
        cooldown_secs: int,
        success_threshold: int,
    ) -> BreakerModel {
        BreakerModel {
            state: BreakerState::Closed,
            failures: 0,
            successes: 0,
            opened_at: None,
            probe_at: None,
            failure_threshold,
            cooldown_secs,
            success_threshold,
        }
    }

    /// What holds of every breaker at all times: the moment of tripping is
    /// known exactly while the breaker is not closed; a probe is out only while
    /// it is half-open; a closed breaker has fewer failures than it takes to
    /// trip; successes are counted only while it is half-open, and stay below
    /// what it takes to close.
    pub open spec fn consistent(self) -> bool {
        &&& 0 <= self.failures <= u32::MAX
        &&& 0 <= self.successes
        &&& self.successes < 2 || self.successes < self.success_threshold
        &&& self.opened_at is Some <==> self.state != BreakerState::Closed
        &&& self.probing() ==> self.state == BreakerState::HalfOpen
        &&& self.state == BreakerState::Closed ==> self.failures == 0 || self.failures
            < self.failure_threshold
        &&& self.state != BreakerState::HalfOpen ==> self.successes == 0
        &&& 0 <= self.failure_threshold <= u32::MAX
        &&& 0 <= self.cooldown_secs <= u64::MAX
        &&& 0 <= self.success_threshold <= u32::MAX
    }

    /// Whether the cooldown is over at the time `now`.
    pub open spec fn cooled_down(self, now: int) -> bool {
        self.opened_at matches Some(opened) && clock::whole_seconds(opened, now) >= self.cooldown_secs
    }

    /// Whether a probe is out: one was let through, and no outcome has been
    /// noted since.
    pub open spec fn probing(self) -> bool {
        self.probe_at is Some
    }

    /// Whether a request that asks at the time `now` may pass.
    pub open spec fn allows(self, now: int) -> bool {
        match self.state {
            BreakerState::Closed => true,
            BreakerState::Open => self.cooled_down(now),
            BreakerState::HalfOpen => !self.probing(),
        }
    }

    /// The breaker after a request has asked at the time `now`. One that passes
    /// while the breaker is not closed is the probe.
    pub open spec fn asked(self, now: int) -> BreakerModel {
        if self.state != BreakerState::Closed && self.allows(now) {
            BreakerModel { state: BreakerState::HalfOpen, probe_at: Some(now), ..self }
        } else {
            self
        }
    }

    /// The breaker once the probe is over without having shown anything.
    pub open spec fn released(self) -> BreakerModel {
        BreakerModel { probe_at: None, ..self }
    }

    /// The breaker at the time `now`, where a probe that has been out for
    /// `limit_secs` seconds counts as lost.
    pub open spec fn without_lost_probe(self, limit_secs: int, now: int) -> BreakerModel {
        match self.probe_at {
            Some(sent) => if clock::whole_seconds(sent, now) >= limit_secs {
                self.released()
            } else {
                self
            },
            None => self,
        }
    }

    /// The breaker after a request has succeeded.
    pub open spec fn succeeded(self) -> BreakerModel {
        match self.state {
            BreakerState::Closed => BreakerModel {
                failures: 0,
                successes: 0,
                probe_at: None,
                ..self
            },
            BreakerState::HalfOpen => if self.successes + 1 >= self.success_threshold {
                BreakerModel {
                    state: BreakerState::Closed,
                    failures: 0,
                    successes: 0,
                    opened_at: None,
                    probe_at: None,
                    ..self
                }
            } else {
                BreakerModel {
                    failures: 0,
                    successes: self.successes + 1,
                    probe_at: None,
                    ..self
                }
            },
            BreakerState::Open => BreakerModel {
                state: BreakerState::HalfOpen,
                failures: 0,
                successes: 1,
                probe_at: None,
                ..self
            },
        }
    }

    /// One more failure than before. The count stays at its largest value once
    /// it has got there.
    pub open spec fn one_more_failure(self) -> int {
        if self.failures < u32::MAX {
            self.failures + 1
        } else {
            self.failures
        }
    }

    /// Whether a failure trips the breaker.
    pub open spec fn trips(self) -> bool {
        match self.state {
            BreakerState::Closed => self.one_more_failure() >= self.failure_threshold,
            BreakerState::HalfOpen => true,
            BreakerState::Open => false,
        }
    }

    /// The breaker after a request has failed at the time `now`.
    pub open spec fn failed(self, now: int) -> BreakerModel {
        if self.trips() {
            BreakerModel {
                state: BreakerState::Open,
                failures: self.one_more_failure(),
                successes: 0,
                opened_at: Some(now),
                probe_at: None,
                ..self
            }
        } else {
            BreakerModel {
                failures: self.one_more_failure(),
                successes: 0,
                probe_at: None,
                ..self
            }
        }
    }

    /// The breaker after it has been closed by hand.
    pub open spec fn closed(self) -> BreakerModel {
        BreakerModel {
            state: BreakerState::Closed,
            failures: 0,
            successes: 0,
            opened_at: None,
            probe_at: None,
            ..self
        }
    }

    /// The breaker after failures at the given times, with nothing in between.
    pub open spec fn failed_at_all(self, times: Seq<int>) -> BreakerModel
        decreases times.len(),
    {
        if times.len() == 0 {
            self
        } else {
            self.failed_at_all(times.drop_last()).failed(times.last())
        }
    }

    /// The breaker after `n` successes, with nothing in between.
    pub open spec fn succeeded_times(self, n: nat) -> BreakerModel
        decreases n,
    {
        if n == 0 {
            self
        } else {
            self.succeeded_times((n - 1) as nat).succeeded()
        }
    }
}

/// A circuit breaker. Every client of a provider shares the same one.
#[derive(Debug)]
pub struct CircuitBreaker {
    state: BreakerState,
    consecutive_failures: u32,
    consecutive_successes: u32,
    opened_at: Option<Timestamp>,
    probe_at: Option<Timestamp>,
    failure_threshold: u32,
    cooldown_secs: u64,
    success_threshold: u32,
}

impl View for CircuitBreaker {
    type V = BreakerModel;

    closed spec fn view(&self) -> BreakerModel {
        BreakerModel {
            state: self.state,
            failures: self.consecutive_failures as int,
            successes: self.consecutive_successes as int,
            opened_at: match self.opened_at {
                Some(t) => Some(t@),
                None => None,
            },
            probe_at: match self.probe_at {
                Some(t) => Some(t@),
                None => None,
            },
            failure_threshold: self.failure_threshold as int,
            cooldown_secs: self.cooldown_secs as int,
            success_threshold: self.success_threshold as int,
        }
    }
}

impl CircuitBreaker {
    pub open spec fn wf(&self) -> bool {
        self@.consistent()
    }

    /// A closed breaker that trips after `failure_threshold` failures in a row,
    /// probes after `cooldown_secs` seconds, and closes again after
    /// `success_threshold` successes.
    pub fn new(failure_threshold: u32, cooldown_secs: u64, success_threshold: u32) -> (r:
        CircuitBreaker)
        ensures
            r.wf(),
            r@ == BreakerModel::fresh(
                failure_threshold as int,
                cooldown_secs as int,
                success_threshold as int,
            ),
    {
        CircuitBreaker {
            state: BreakerState::Closed,
            consecutive_failures: 0,
            consecutive_successes: 0,
            opened_at: None,
            probe_at: None,
            failure_threshold,
            cooldown_secs,
            success_threshold,
        }
    }

    /// Whether a request may pass now. An open breaker whose cooldown is over
    /// turns half-open. While it is half-open, one request at a time passes:
    /// the next one after the outcome of the one before has been noted.
    pub fn allow_request(&mut self) -> (allowed: bool)
        requires
            old(self).wf(),
        ensures
            final(self).wf(),
            exists|now: int| #[trigger]
                old(self)@.asked(now) == final(self)@ && allowed == old(self)@.allows(now)
                    && clock::can_show(now),
    {
        let now = Timestamp::now();
        self.allow_request_at(now)
    }

    /// Whether a request may pass at the time `now`. An open breaker whose
    /// cooldown is over turns half-open. While it is half-open, one request at
    /// a time passes.
    pub fn allow_request_at(&mut self, now: Timestamp) -> (allowed: bool)
        requires
            old(self).wf(),
        ensures
            final(self).wf(),
            final(self)@ == old(self)@.asked(now@),
            allowed == old(self)@.allows(now@),
    {
        match self.state {
            BreakerState::Closed => true,
            BreakerState::HalfOpen => {
                match self.probe_at {
                    Some(_) => false,
                    None => {
                        self.probe_at = Some(now);
                        true
                    },
                }
            },
            BreakerState::Open => {
                match self.opened_at {
                    Some(opened) => {
                        let elapsed: i64 = now.seconds_since(opened);
                        if elapsed >= 0 && elapsed as u64 >= self.cooldown_secs {
                            self.state = BreakerState::HalfOpen;
                            self.probe_at = Some(now);
                            true
                        } else {
                            false
                        }
                    },
                    None => false,
                }
            },
        }
    }

    /// Notes that a request has ended in a way that counts neither as a success
    /// nor as a failure: the next probe may pass.
    pub fn release_probe(&mut self)
        requires
            old(self).wf(),
        ensures
            final(self).wf(),
            final(self)@ == old(self)@.released(),
    {
        self.probe_at = None;
    }

    /// Gives up a probe that has been out for `limit_secs` seconds or more at
    /// the time `now`, so that one that is never heard of again does not keep
    /// all others away.
    pub fn drop_lost_probe_at(&mut self, limit_secs: u64, now: Timestamp)
        requires
            old(self).wf(),
        ensures
            final(self).wf(),
            final(self)@ == old(self)@.without_lost_probe(limit_secs as int, now@),
    {
        if let Some(sent) = self.probe_at {
            let elapsed: i64 = now.seconds_since(sent);
            if elapsed >= 0 && elapsed as u64 >= limit_secs {
                self.probe_at = None;
            }
        }
    }

    /// Notes that a request has succeeded. A half-open breaker closes once it
    /// has seen enough successes.
    pub fn record_success(&mut self)
        requires
            old(self).wf(),
        ensures
            final(self).wf(),
            final(self)@ == old(self)@.succeeded(),
    {
        self.consecutive_failures = 0;
        self.probe_at = None;
        match self.state {
            BreakerState::Closed => {
                self.consecutive_successes = 0;
            },
            BreakerState::HalfOpen => {
                self.consecutive_successes = self.consecutive_successes + 1;
                if self.consecutive_successes >= self.success_threshold {
                    self.state = BreakerState::Closed;
                    self.consecutive_successes = 0;
                    self.opened_at = None;
                }
            },
            BreakerState::Open => {
                self.state = BreakerState::HalfOpen;
                self.consecutive_successes = 1;
            },
        }
    }

    /// Notes that a request has failed now. A closed breaker trips once it has
    /// seen enough failures in a row, a half-open one at once.
    pub fn record_failure(&mut self)
        requires
            old(self).wf(),
        ensures
            final(self).wf(),
            exists|now: int| #[trigger]
                old(self)@.failed(now) == final(self)@ && clock::can_show(now),
    {
        let now = Timestamp::now();
        self.record_failure_at(now);
    }

    /// Notes that a request has failed at the time `now`.
    pub fn record_failure_at(&mut self, now: Timestamp)
        requires
            old(self).wf(),
        ensures
            final(self).wf(),
            final(self)@ == old(self)@.failed(now@),
    {
        self.consecutive_successes = 0;
        self.probe_at = None;
        self.consecutive_failures = self.consecutive_failures.saturating_add(1);
        match self.state {
            BreakerState::Closed => {
                if self.consecutive_failures >= self.failure_threshold {
                    self.state = BreakerState::Open;
                    self.opened_at = Some(now);
                }
            },
            BreakerState::HalfOpen => {
                self.state = BreakerState::Open;
                self.opened_at = Some(now);
            },
            BreakerState::Open => {},
        }
    }

    /// The current state.
    pub fn state(&self) -> (r: BreakerState)
        ensures
            r == self@.state,
    {
        self.state
    }

    /// The failures since the last success.
    pub fn consecutive_failures(&self) -> (r: u32)
        ensures
            r == self@.failures,
    {
        self.consecutive_failures
    }

    /// Closes the breaker and forgets its failures.
    pub fn reset(&mut self)
        requires
            old(self).wf(),
        ensures
            final(self).wf(),
            final(self)@ == old(self)@.closed(),
    {
        self.state = BreakerState::Closed;
        self.consecutive_failures = 0;
        self.consecutive_successes = 0;
        self.opened_at = None;
        self.probe_at = None;
    }
}

// ---------------------------------------------------------------------------
// Laws
// ---------------------------------------------------------------------------

/// Whatever happens to a consistent breaker leaves it consistent.
pub proof fn breaker_stays_consistent(b: BreakerModel, limit_secs: int, now: int)
    requires
        b.consistent(),
    ensures
        b.asked(now).consistent(),
        b.succeeded().consistent(),
        b.failed(now).consistent(),
        b.closed().consistent(),
        b.released().consistent(),
        b.without_lost_probe(limit_secs, now).consistent(),
{
}

/// No event changes the thresholds or the cooldown.
pub proof fn settings_never_change(b: BreakerModel, limit_secs: int, now: int)
    ensures
        forall|after: BreakerModel|
            #![trigger after.failure_threshold]
            (after == b.asked(now) || after == b.succeeded() || after == b.failed(now) || after
                == b.closed() || after == b.released() || after == b.without_lost_probe(
                limit_secs,
                now,
            )) ==> after.failure_threshold == b.failure_threshold
                && after.cooldown_secs == b.cooldown_secs && after.success_threshold
                == b.success_threshold,
{
}

/// A closed breaker lets every request pass, and asking changes nothing.
pub proof fn requests_pass_while_closed(b: BreakerModel, now: int)
    requires
        b.state == BreakerState::Closed,
    ensures
        b.allows(now),
        b.asked(now) == b,
{
}

/// One probe at a time: once a breaker that is not closed has let a request
/// pass, it turns every other away, whenever it asks, until an outcome is noted.
pub proof fn one_probe_at_a_time(b: BreakerModel, now: int, later: int)
    requires
        b.state != BreakerState::Closed,
        b.allows(now),
    ensures
        b.asked(now).state == BreakerState::HalfOpen,
        b.asked(now).probing(),
        !b.asked(now).allows(later),
        b.asked(now).asked(later) == b.asked(now),
{
}

/// Whatever becomes of a probe, it is then over: no outcome leaves it out.
pub proof fn every_outcome_ends_the_probe(b: BreakerModel, now: int)
    ensures
        !b.succeeded().probing(),
        !b.failed(now).probing(),
        !b.released().probing(),
        !b.closed().probing(),
{
}

/// A half-open breaker lets the next probe pass once the one before is over,
/// be it that it succeeded without closing the breaker, that it showed
/// nothing, or that it was lost.
pub proof fn next_probe_follows(b: BreakerModel, limit_secs: int, now: int)
    requires
        b.consistent(),
        b.state == BreakerState::HalfOpen,
    ensures
        b.succeeded().allows(now),
        b.released().allows(now),
        b.probe_at matches Some(sent) && clock::whole_seconds(sent, now) >= limit_secs
            ==> b.without_lost_probe(limit_secs, now).allows(now),
{
}

/// In a half-open breaker only outcomes count: that the probe has asked before
/// makes no difference to what its success or failure does.
pub proof fn outcomes_decide(b: BreakerModel, asked_at: int, now: int)
    requires
        b.state == BreakerState::HalfOpen,
    ensures
        b.asked(asked_at).succeeded() == b.succeeded(),
        b.asked(asked_at).failed(now) == b.failed(now),
{
}

/// A request that is turned away leaves the breaker as it was.
pub proof fn refused_requests_change_nothing(b: BreakerModel, now: int)
    requires
        !b.allows(now),
    ensures
        b.asked(now) == b,
{
}

/// An open breaker turns every request away until the cooldown is over, and
/// asking leaves it as it is.
pub proof fn open_rejects_until_cooldown(b: BreakerModel, now: int)
    requires
        b.consistent(),
        b.state == BreakerState::Open,
        clock::whole_seconds(b.opened_at->0, now) < b.cooldown_secs,
    ensures
        !b.allows(now),
        b.asked(now) == b,
{
}

/// Once the cooldown is over, an open breaker turns half-open and lets the
/// request that asked pass.
pub proof fn open_probes_after_cooldown(b: BreakerModel, now: int)
    requires
        b.consistent(),
        b.state == BreakerState::Open,
        clock::whole_seconds(b.opened_at->0, now) >= b.cooldown_secs,
    ensures
        b.allows(now),
        b.asked(now).state == BreakerState::HalfOpen,
        b.asked(now).probe_at == Some(now),
{
}

/// Every client sees the same breaker: once it has tripped, whoever asks
/// before the cooldown is over is turned away, however many have asked before.
pub proof fn tripped_for_every_client(b: BreakerModel, asked_at: Seq<int>, now: int)
    requires
        b.consistent(),
        b.state == BreakerState::Open,
        forall|i: int|
            0 <= i < asked_at.len() ==> clock::whole_seconds(b.opened_at->0, #[trigger] asked_at[i])
                < b.cooldown_secs,
        clock::whole_seconds(b.opened_at->0, now) < b.cooldown_secs,
    ensures
        asked_by_all(b, asked_at) == b,
        !asked_by_all(b, asked_at).allows(now),
    decreases asked_at.len(),
{
    if asked_at.len() > 0 {
        tripped_for_every_client(b, asked_at.drop_last(), now);
        assert(clock::whole_seconds(b.opened_at->0, asked_at[asked_at.len() - 1]) < b.cooldown_secs);
    }
}

/// The breaker after requests have asked at the given times.
pub open spec fn asked_by_all(b: BreakerModel, times: Seq<int>) -> BreakerModel
    decreases times.len(),
{
    if times.len() == 0 {
        b
    } else {
        asked_by_all(b, times.drop_last()).asked(times.last())
    }
}

/// The number of failures in a row that trips a closed breaker: its threshold,
/// and 1 where that is 0.
pub open spec fn failures_to_trip(b: BreakerModel) -> int {
    if b.failure_threshold > 1 {
        b.failure_threshold
    } else {
        1
    }
}

/// After failures in a row, however many, a closed breaker has counted all of
/// them. It is open exactly where they have reached what it takes to trip, and
/// its cooldown runs from the failure that did so.
pub proof fn trips_at_the_threshold(b: BreakerModel, times: Seq<int>)
    requires
        b.consistent(),
        b.state == BreakerState::Closed,
        b.failures + times.len() <= u32::MAX,
    ensures
        ({
            let after = b.failed_at_all(times);
            &&& after.failures == b.failures + times.len()
            &&& after.state == BreakerState::Open <==> after.failures >= failures_to_trip(b)
            &&& after.state == BreakerState::Closed <==> after.failures < failures_to_trip(b)
            &&& after.state == BreakerState::Open ==> after.opened_at == Some(
                times[failures_to_trip(b) - b.failures - 1],
            )
        }),
    decreases times.len(),
{
    if times.len() > 0 {
        trips_at_the_threshold(b, times.drop_last());
        lemma_failures_keep_settings(b, times.drop_last());
    }
}

/// A fresh breaker is open after failures in a row exactly where there are at
/// least as many as its threshold, and at least one.
pub proof fn fresh_breaker_trips_at_the_threshold(n: int, c: int, m: int, times: Seq<int>)
    requires
        0 <= n <= u32::MAX,
        0 <= c <= u64::MAX,
        0 <= m <= u32::MAX,
        times.len() <= u32::MAX,
    ensures
        BreakerModel::fresh(n, c, m).failed_at_all(times).failures == times.len(),
        BreakerModel::fresh(n, c, m).failed_at_all(times).state == BreakerState::Open <==> times.len()
            >= n && times.len() >= 1,
{
    trips_at_the_threshold(BreakerModel::fresh(n, c, m), times);
}

/// A breaker that was closed by hand is as good as fresh: whatever follows, it
/// answers as a fresh one does.
pub proof fn closed_by_hand_is_fresh(b: BreakerModel, events: Seq<BreakerEvent>, now: int)
    ensures
        ({
            let fresh = BreakerModel::fresh(
                b.failure_threshold,
                b.cooldown_secs,
                b.success_threshold,
            );
            &&& b.closed() == fresh
            &&& after_events(b.closed(), events) == after_events(fresh, events)
            &&& after_events(b.closed(), events).allows(now) == after_events(fresh, events).allows(
                now,
            )
        }),
{
}

/// What can happen to a breaker.
pub enum BreakerEvent {
    Asked { now: int },
    Succeeded,
    Failed { now: int },
    Released,
    LostProbeDropped { limit_secs: int, now: int },
    ClosedByHand,
}

/// The breaker after one event.
pub open spec fn after_event(b: BreakerModel, event: BreakerEvent) -> BreakerModel {
    match event {
        BreakerEvent::Asked { now } => b.asked(now),
        BreakerEvent::Succeeded => b.succeeded(),
        BreakerEvent::Failed { now } => b.failed(now),
        BreakerEvent::Released => b.released(),
        BreakerEvent::LostProbeDropped { limit_secs, now } => b.without_lost_probe(limit_secs, now),
        BreakerEvent::ClosedByHand => b.closed(),
    }
}

/// The breaker after events, in their order.
pub open spec fn after_events(b: BreakerModel, events: Seq<BreakerEvent>) -> BreakerModel
    decreases events.len(),
{
    if events.len() == 0 {
        b
    } else {
        after_event(after_events(b, events.drop_last()), events.last())
    }
}

proof fn lemma_failures_keep_settings(b: BreakerModel, times: Seq<int>)
    ensures
        b.failed_at_all(times).failure_threshold == b.failure_threshold,
    decreases times.len(),
{
    if times.len() > 0 {
        lemma_failures_keep_settings(b, times.drop_last());
    }
}

/// A closed breaker trips at its first failure where the threshold is 0 or 1.
pub proof fn small_threshold_trips_at_once(b: BreakerModel, now: int)
    requires
        b.consistent(),
        b.state == BreakerState::Closed,
        b.failure_threshold <= 1,
    ensures
        b.failed(now).state == BreakerState::Open,
{
}

/// Only failures in a row count: after a success, a closed breaker takes as
/// many failures to trip as a fresh one.
pub proof fn success_forgives_failures(b: BreakerModel)
    requires
        b.consistent(),
        b.state == BreakerState::Closed,
    ensures
        b.succeeded() == BreakerModel::fresh(
            b.failure_threshold,
            b.cooldown_secs,
            b.success_threshold,
        ),
{
}

/// A failed probe opens the breaker again at once, and the cooldown starts over.
pub proof fn failed_probe_reopens(b: BreakerModel, now: int)
    requires
        b.state == BreakerState::HalfOpen,
    ensures
        b.failed(now).state == BreakerState::Open,
        b.failed(now).opened_at == Some(now),
        b.failed(now).successes == 0,
{
}

/// A failure while the breaker is open does not put off the end of the cooldown.
pub proof fn failure_while_open_keeps_cooldown(b: BreakerModel, now: int)
    requires
        b.state == BreakerState::Open,
    ensures
        b.failed(now).state == BreakerState::Open,
        b.failed(now).opened_at == b.opened_at,
{
}

/// A breaker that has begun to probe closes with the success that reaches the
/// threshold, and not before; it is then as good as fresh.
pub proof fn closes_at_the_threshold(b: BreakerModel, n: nat)
    requires
        b.consistent(),
        b.state == BreakerState::HalfOpen,
        b.successes == 0,
        0 < n,
        n <= b.success_threshold || n == 1,
    ensures
        n < b.success_threshold ==> b.succeeded_times(n).state == BreakerState::HalfOpen
            && b.succeeded_times(n).successes == n,
        n >= b.success_threshold ==> b.succeeded_times(n) == BreakerModel::fresh(
            b.failure_threshold,
            b.cooldown_secs,
            b.success_threshold,
        ),
    decreases n,
{
    reveal_with_fuel(BreakerModel::succeeded_times, 2);
    if n > 1 {
        closes_at_the_threshold(b, (n - 1) as nat);
        lemma_successes_keep_settings(b, (n - 1) as nat);
    }
}

proof fn lemma_successes_keep_settings(b: BreakerModel, n: nat)
    ensures
        b.succeeded_times(n).failure_threshold == b.failure_threshold,
        b.succeeded_times(n).cooldown_secs == b.cooldown_secs,
        b.succeeded_times(n).success_threshold == b.success_threshold,
    decreases n,
{
    if n > 0 {
        lemma_successes_keep_settings(b, (n - 1) as nat);
    }
}

/// A breaker leaves the closed state only by a failure, and comes back to it
/// only by a success while half-open or by hand.
pub proof fn ways_in_and_out_of_closed(b: BreakerModel, now: int)
    ensures
        b.state == BreakerState::Closed ==> b.asked(now).state == BreakerState::Closed
            && b.succeeded().state == BreakerState::Closed,
        b.state != BreakerState::Closed ==> b.asked(now).state != BreakerState::Closed
            && b.failed(now).state != BreakerState::Closed,
        b.state == BreakerState::Open ==> b.succeeded().state == BreakerState::HalfOpen,
        b.closed().state == BreakerState::Closed,
{
}

/// A fresh breaker is closed, has counted nothing, and keeps its settings.
pub proof fn fresh_breakers_are_closed(n: int, c: int, m: int, now: int)
    ensures
        ({
            let b = BreakerModel::fresh(n, c, m);
            &&& b.state == BreakerState::Closed
            &&& b.failures == 0
            &&& b.successes == 0
            &&& b.opened_at is None
            &&& b.probe_at is None
            &&& b.failure_threshold == n
            &&& b.cooldown_secs == c
            &&& b.success_threshold == m
        }),
{
}

/// Each state goes by a name of its own.
pub proof fn names_of_the_states(s: BreakerState)
    ensures
        s == BreakerState::Closed ==> s.name() == "closed"@,
        s == BreakerState::Open ==> s.name() == "open"@,
        s == BreakerState::HalfOpen ==> s.name() == "half_open"@,
{
}

/// Every failure counts, in whatever state it comes, up to the end of the
/// counter. It ends a run of successes, and moves the start of the cooldown
/// only where it trips the breaker.
pub proof fn every_failure_counts(b: BreakerModel, now: int)
    requires
        b.consistent(),
    ensures
        b.failures < u32::MAX ==> b.failed(now).failures == b.failures + 1,
        b.failures == u32::MAX ==> b.failed(now).failures == b.failures,
        b.failed(now).successes == 0,
        b.state == b.failed(now).state ==> b.failed(now).opened_at == b.opened_at,
        b.state != b.failed(now).state ==> b.failed(now).state == BreakerState::Open && b.failed(
            now,
        ).opened_at == Some(now),
{
}

/// Every success forgives all failures, in whatever state it comes.
pub proof fn every_success_forgives(b: BreakerModel)
    ensures
        b.succeeded().failures == 0,
{
}

/// A success of a half-open breaker is one more; with the one that reaches the
/// threshold the breaker is as good as fresh, and before that it stays half-open.
pub proof fn success_while_half_open(b: BreakerModel)
    requires
        b.state == BreakerState::HalfOpen,
    ensures
        b.successes + 1 >= b.success_threshold ==> b.succeeded() == BreakerModel::fresh(
            b.failure_threshold,
            b.cooldown_secs,
            b.success_threshold,
        ),
        b.successes + 1 < b.success_threshold ==> b.succeeded().state == BreakerState::HalfOpen
            && b.succeeded().successes == b.successes + 1 && b.succeeded().opened_at == b.opened_at,
{
}

/// A success of a breaker that is still open is the first of a new run.
pub proof fn success_while_open(b: BreakerModel)
    requires
        b.state == BreakerState::Open,
    ensures
        b.succeeded().state == BreakerState::HalfOpen,
        b.succeeded().successes == 1,
        b.succeeded().opened_at == b.opened_at,
        b.succeeded().probe_at is None,
{
}

/// Asking and giving up a probe count nothing: they touch neither the
/// failures nor the successes nor the time of tripping.
pub proof fn asking_counts_nothing(b: BreakerModel, now: int)
    ensures
        b.asked(now).failures == b.failures,
        b.asked(now).successes == b.successes,
        b.asked(now).opened_at == b.opened_at,
        b.asked(now).state == b.state || (b.state == BreakerState::Open && b.asked(now).state
            == BreakerState::HalfOpen),
        b.released().failures == b.failures,
        b.released().successes == b.successes,
        b.released().opened_at == b.opened_at,
        b.released().state == b.state,
        b.released().probe_at is None,
{
}

/// A half-open breaker lets a request pass exactly where no probe is out.
pub proof fn half_open_lets_a_probe_pass(b: BreakerModel, now: int)
    requires
        b.state == BreakerState::HalfOpen,
    ensures
        b.allows(now) <==> b.probe_at is None,
        b.probe_at is None ==> b.asked(now).probe_at == Some(now),
{
}

/// A probe is lost once it has been out for the given time, and not before.
pub proof fn probes_are_lost_in_time(b: BreakerModel, limit_secs: int, now: int)
    ensures
        b.probe_at is None ==> b.without_lost_probe(limit_secs, now) == b,
        b.probe_at matches Some(sent) ==> {
            let out_for = clock::whole_seconds(sent, now);
            &&& out_for < limit_secs ==> b.without_lost_probe(limit_secs, now) == b
            &&& out_for >= limit_secs ==> b.without_lost_probe(limit_secs, now) == b.released()
        },
{
}

} // verus!
