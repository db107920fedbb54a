//! What the gateway counts of each provider, and what it reports of its health.

use crate::clock::{self, Timestamp};
use crate::text;
use vstd::prelude::*;

verus! {

/// The number that a 64-bit counter does not reach.
pub open spec fn counter_range() -> int {
    0x1_0000_0000_0000_0000
}

/// One more, or the same where the counter has reached its largest value.
pub open spec fn counted(n: int) -> int {
    if n < u64::MAX {
        n + 1
    } else {
        n
    }
}

/// What the counters are, as a mathematical value.
pub struct MetricsModel {
    pub total_requests: int,
    pub successful_requests: int,
    pub failed_requests: int,
    pub rate_limited_count: int,
    pub auth_errors: int,
    pub timeout_count: int,
    pub total_latency_ms: int,
    pub last_request_at: Option<int>,
    pub last_error: Option<Seq<char>>,
}

impl MetricsModel {
    /// Nothing counted yet.
    pub open spec fn fresh() -> MetricsModel {
        MetricsModel {
            total_requests: 0,
            successful_requests: 0,
            failed_requests: 0,
            rate_limited_count: 0,
            auth_errors: 0,
            timeout_count: 0,
            total_latency_ms: 0,
            last_request_at: None,
            last_error: None,
        }
    }

    /// After a success at the time `now` that took `latency_ms` milliseconds.
    /// The sum of the latencies wraps around at the end of its range.
    pub open spec fn succeeded(self, latency_ms: int, now: int) -> MetricsModel {
        MetricsModel {
            total_requests: counted(self.total_requests),
            successful_requests: counted(self.successful_requests),
            total_latency_ms: (self.total_latency_ms + latency_ms) % counter_range(),
            last_request_at: Some(now),
            ..self
        }
    }

    /// After a failure at the time `now`.
    pub open spec fn failed(self, error: Seq<char>, now: int) -> MetricsModel {
        MetricsModel {
            total_requests: counted(self.total_requests),
            failed_requests: counted(self.failed_requests),
            last_error: Some(error),
            last_request_at: Some(now),
            ..self
        }
    }

    /// After successes with the given latencies, each at the time `now`.
    pub open spec fn succeeded_with_all(self, latencies_ms: Seq<int>, now: int) -> MetricsModel
        decreases latencies_ms.len(),
    {
        if latencies_ms.len() == 0 {
            self
        } else {
            self.succeeded_with_all(latencies_ms.drop_last(), now).succeeded(
                latencies_ms.last(),
                now,
            )
        }
    }

    /// Every request has either succeeded or failed.
    pub open spec fn balanced(self) -> bool {
        &&& 0 <= self.successful_requests
        &&& 0 <= self.failed_requests
        &&& self.total_requests == self.successful_requests + self.failed_requests
    }

    /// The average latency of a success, in milliseconds; 0 where there was none.
    pub open spec fn average_latency(self) -> Ratio {
        if self.successful_requests == 0 {
            Ratio { numerator: 0, denominator: 1 }
        } else {
            Ratio {
                numerator: self.total_latency_ms as u64,
                denominator: self.successful_requests as u64,
            }
        }
    }

    /// The share of requests that failed; 0 where there was none.
    pub open spec fn failure_share(self) -> Ratio {
        if self.total_requests == 0 {
            Ratio { numerator: 0, denominator: 1 }
        } else {
            Ratio {
                numerator: self.failed_requests as u64,
                denominator: self.total_requests as u64,
            }
        }
    }
}

/// An exact quotient. The denominator is never 0.
#[derive(Debug, Clone, Copy, PartialEq, Eq, Structural)]
pub struct Ratio {
    pub numerator: u64,
    pub denominator: u64,
}

/// The counters of one provider.
#[derive(Debug)]
pub struct ProviderMetrics {
    pub total_requests: u64,
    pub successful_requests: u64,
    pub failed_requests: u64,
    pub rate_limited_count: u64,
    pub auth_errors: u64,
    pub timeout_count: u64,
    pub total_latency_ms: u64,
    pub last_request_at: Option<Timestamp>,
    pub last_error: Option<String>,
}

impl View for ProviderMetrics {
    type V = MetricsModel;

    open spec fn view(&self) -> MetricsModel {
        MetricsModel {
            total_requests: self.total_requests as int,
            successful_requests: self.successful_requests as int,
            failed_requests: self.failed_requests as int,
            rate_limited_count: self.rate_limited_count as int,
            auth_errors: self.auth_errors as int,
            timeout_count: self.timeout_count as int,
            total_latency_ms: self.total_latency_ms as int,
            last_request_at: match self.last_request_at {
                Some(t) => Some(t@),
                None => None,
            },
            last_error: match self.last_error {
                Some(e) => Some(e@),
                None => None,
            },
        }
    }
}

impl ProviderMetrics {
    /// Counters at zero.
    pub fn new() -> (r: ProviderMetrics)
        ensures
            r@ == MetricsModel::fresh(),
    {
        ProviderMetrics {
            total_requests: 0,
            successful_requests: 0,
            failed_requests: 0,
            rate_limited_count: 0,
            auth_errors: 0,
            timeout_count: 0,
            total_latency_ms: 0,
            last_request_at: None,
            last_error: None,
        }
    }

    /// Counts a success now that took `latency_ms` milliseconds.
    pub fn record_success(&mut self, latency_ms: u128)
        ensures
            exists|now: int| #[trigger]
                old(self)@.succeeded(latency_ms as int, now) == final(self)@ && clock::can_show(now),
    {
        let now = Timestamp::now();
        self.record_success_at(latency_ms, now);
    }

    /// Counts a success at the time `now` that took `latency_ms` milliseconds.
    pub fn record_success_at(&mut self, latency_ms: u128, now: Timestamp)
        ensures
            final(self)@ == old(self)@.succeeded(latency_ms as int, now@),
    {
        let low: u64 = #[verifier::truncate] (latency_ms as u64);
        proof {
            assert(low == latency_ms % 0x1_0000_0000_0000_0000u128) by (bit_vector)
                requires
                    low == latency_ms as u64,
            ;
            vstd::arithmetic::div_mod::lemma_add_mod_noop_right(
                self.total_latency_ms as int,
                latency_ms as int,
                counter_range(),
            );
            let sum = self.total_latency_ms + low;
            if sum >= counter_range() {
                vstd::arithmetic::div_mod::lemma_fundamental_div_mod_converse(
                    sum,
                    counter_range(),
                    1,
                    sum - counter_range(),
                );
            } else {
                vstd::arithmetic::div_mod::lemma_small_mod(sum as nat, counter_range() as nat);
            }
        }
        self.total_requests = self.total_requests.saturating_add(1);
        self.successful_requests = self.successful_requests.saturating_add(1);
        self.total_latency_ms = self.total_latency_ms.wrapping_add(low);
        self.last_request_at = Some(now);
    }

    /// Counts a failure now.
    pub fn record_failure(&mut self, error: &str)
        ensures
            exists|now: int| #[trigger]
                old(self)@.failed(error@, now) == final(self)@ && clock::can_show(now),
    {
        let now = Timestamp::now();
        self.record_failure_at(error, now);
    }

    /// Counts a failure at the time `now`.
    pub fn record_failure_at(&mut self, error: &str, now: Timestamp)
        ensures
            final(self)@ == old(self)@.failed(error@, now@),
    {
        self.total_requests = self.total_requests.saturating_add(1);
        self.failed_requests = self.failed_requests.saturating_add(1);
        self.last_error = Some(error.to_string());
        self.last_request_at = Some(now);
    }

    /// The average latency of a success, in milliseconds; 0 where there was none.
    pub fn avg_latency_ms(&self) -> (r: Ratio)
        ensures
            r == self@.average_latency(),
            r.denominator != 0,
    {
        if self.successful_requests == 0 {
            Ratio { numerator: 0, denominator: 1 }
        } else {
            Ratio { numerator: self.total_latency_ms, denominator: self.successful_requests }
        }
    }

    /// The share of requests that failed; 0 where there was none.
    pub fn error_rate(&self) -> (r: Ratio)
        ensures
            r == self@.failure_share(),
            r.denominator != 0,
    {
        if self.total_requests == 0 {
            Ratio { numerator: 0, denominator: 1 }
        } else {
            Ratio { numerator: self.failed_requests, denominator: self.total_requests }
        }
    }
}

impl Default for ProviderMetrics {
    fn default() -> (r: ProviderMetrics)
        ensures
            r@ == MetricsModel::fresh(),
    {
        ProviderMetrics::new()
    }
}

/// The counters of a provider at one moment, ready to be reported.
#[derive(Debug)]
pub struct ProviderMetricsSnapshot {
    pub total_requests: u64,
    pub successful_requests: u64,
    pub failed_requests: u64,
    pub error_rate: Ratio,
    pub avg_latency_ms: Ratio,
    pub last_request_at: Option<String>,
    pub last_error: Option<String>,
}

/// What a snapshot is, as a mathematical value.
pub struct MetricsSnapshotModel {
    pub total_requests: int,
    pub successful_requests: int,
    pub failed_requests: int,
    pub error_rate: Ratio,
    pub avg_latency_ms: Ratio,
    pub last_request_at: Option<Seq<char>>,
    pub last_error: Option<Seq<char>>,
}

impl View for ProviderMetricsSnapshot {
    type V = MetricsSnapshotModel;

    open spec fn view(&self) -> MetricsSnapshotModel {
        MetricsSnapshotModel {
            total_requests: self.total_requests as int,
            successful_requests: self.successful_requests as int,
            failed_requests: self.failed_requests as int,
            error_rate: self.error_rate,
            avg_latency_ms: self.avg_latency_ms,
            last_request_at: text::text_of(self.last_request_at),
            last_error: text::text_of(self.last_error),
        }
    }
}

impl MetricsSnapshotModel {
    /// The snapshot of the given counters.
    pub open spec fn of(m: MetricsModel) -> MetricsSnapshotModel {
        MetricsSnapshotModel {
            total_requests: m.total_requests,
            successful_requests: m.successful_requests,
            failed_requests: m.failed_requests,
            error_rate: m.failure_share(),
            avg_latency_ms: m.average_latency(),
            last_request_at: match m.last_request_at {
                Some(t) => Some(clock::rfc3339_of(t)),
                None => None,
            },
            last_error: m.last_error,
        }
    }
}

impl ProviderMetricsSnapshot {
    /// The snapshot of the given counters.
    pub fn from_metrics(m: &ProviderMetrics) -> (r: ProviderMetricsSnapshot)
        ensures
            r@ == MetricsSnapshotModel::of(m@),
    {
        ProviderMetricsSnapshot {
            total_requests: m.total_requests,
            successful_requests: m.successful_requests,
            failed_requests: m.failed_requests,
            error_rate: m.error_rate(),
            avg_latency_ms: m.avg_latency_ms(),
            last_request_at: match m.last_request_at {
                Some(t) => Some(t.to_rfc3339()),
                None => None,
            },
            last_error: text::clone_text(&m.last_error),
        }
    }
}

/// The health of one provider.
#[derive(Debug)]
pub struct HealthSnapshot {
    pub provider: String,
    pub breaker_state: String,
    pub consecutive_failures: u32,
    pub metrics: ProviderMetricsSnapshot,
    pub models: Vec<String>,
}

/// What a health report on one provider is, as a mathematical value.
pub struct HealthModel {
    pub provider: Seq<char>,
    pub breaker_state: Seq<char>,
    pub consecutive_failures: int,
    pub metrics: MetricsSnapshotModel,
    pub models: Seq<Seq<char>>,
}

impl View for HealthSnapshot {
    type V = HealthModel;

    open spec fn view(&self) -> HealthModel {
        HealthModel {
            provider: self.provider@,
            breaker_state: self.breaker_state@,
            consecutive_failures: self.consecutive_failures as int,
            metrics: self.metrics@,
            models: text::texts(self.models@),
        }
    }
}

// ---------------------------------------------------------------------------
// Laws
// ---------------------------------------------------------------------------

/// Counting keeps the books: as long as the total has not reached its largest
/// value, every request counted has either succeeded or failed.
pub proof fn books_stay_balanced(m: MetricsModel, latency_ms: int, error: Seq<char>, now: int)
    requires
        m.balanced(),
        m.total_requests < u64::MAX,
    ensures
        MetricsModel::fresh().balanced(),
        m.succeeded(latency_ms, now).balanced(),
        m.failed(error, now).balanced(),
        m.succeeded(latency_ms, now).total_requests == m.total_requests + 1,
        m.failed(error, now).total_requests == m.total_requests + 1,
{
}

/// The share of failures lies between 0 and 1.
pub proof fn failure_share_is_a_share(m: MetricsModel)
    requires
        m.balanced(),
        m.total_requests <= u64::MAX,
    ensures
        0 <= m.failure_share().numerator <= m.failure_share().denominator,
        0 < m.failure_share().denominator,
{
}

/// The sum of a sequence of latencies.
pub open spec fn sum(values: Seq<int>) -> int
    decreases values.len(),
{
    if values.len() == 0 {
        0
    } else {
        sum(values.drop_last()) + values.last()
    }
}

/// After some successes, the average latency is the sum of their latencies
/// over their number, as long as the sum stays in range.
pub proof fn average_is_the_mean(latencies_ms: Seq<int>, now: int)
    requires
        0 < latencies_ms.len() <= u64::MAX,
        forall|i: int| 0 <= i < latencies_ms.len() ==> 0 <= #[trigger] latencies_ms[i],
        sum(latencies_ms) <= u64::MAX,
    ensures
        ({
            let m = MetricsModel::fresh().succeeded_with_all(latencies_ms, now);
            &&& m.average_latency().numerator == sum(latencies_ms)
            &&& m.average_latency().denominator == latencies_ms.len()
        }),
{
    lemma_successes_add_up(latencies_ms, now);
}

proof fn lemma_successes_add_up(latencies_ms: Seq<int>, now: int)
    requires
        latencies_ms.len() <= u64::MAX,
        forall|i: int| 0 <= i < latencies_ms.len() ==> 0 <= #[trigger] latencies_ms[i],
        sum(latencies_ms) <= u64::MAX,
    ensures
        ({
            let m = MetricsModel::fresh().succeeded_with_all(latencies_ms, now);
            &&& m.total_latency_ms == sum(latencies_ms)
            &&& m.successful_requests == latencies_ms.len()
        }),
        0 <= sum(latencies_ms),
    decreases latencies_ms.len(),
{
    if latencies_ms.len() > 0 {
        let head = latencies_ms.drop_last();
        assert(0 <= latencies_ms[latencies_ms.len() - 1]);
        assert forall|i: int| 0 <= i < head.len() implies 0 <= #[trigger] head[i] by {
            assert(0 <= latencies_ms[i]);
        }
        lemma_successes_add_up(head, now);
        vstd::arithmetic::div_mod::lemma_small_mod(
            sum(latencies_ms) as nat,
            counter_range() as nat,
        );
    }
}

/// Nothing has been counted at the start.
pub proof fn counting_starts_at_zero()
    ensures
        ({
            let m = MetricsModel::fresh();
            &&& m.total_requests == 0 && m.successful_requests == 0 && m.failed_requests == 0
            &&& m.rate_limited_count == 0 && m.auth_errors == 0 && m.timeout_count == 0
            &&& m.total_latency_ms == 0 && m.last_request_at is None && m.last_error is None
        }),
{
}

/// A success is one request and one success more, adds its latency, and is the
/// last request; it leaves the failures, their classes and the last error alone.
pub proof fn successes_are_counted(m: MetricsModel, latency_ms: int, now: int)
    requires
        0 <= m.total_requests < 0xffff_ffff_ffff_ffff,
        0 <= m.successful_requests < 0xffff_ffff_ffff_ffff,
        0 <= m.total_latency_ms,
        0 <= latency_ms,
    ensures
        ({
            let after = m.succeeded(latency_ms, now);
            &&& after.total_requests == m.total_requests + 1
            &&& after.successful_requests == m.successful_requests + 1
            &&& after.failed_requests == m.failed_requests
            &&& after.rate_limited_count == m.rate_limited_count
            &&& after.auth_errors == m.auth_errors
            &&& after.timeout_count == m.timeout_count
            &&& after.last_error == m.last_error
            &&& after.last_request_at == Some(now)
            &&& 0 <= after.total_latency_ms < 0x1_0000_0000_0000_0000
            &&& m.total_latency_ms + latency_ms < 0x1_0000_0000_0000_0000 ==> after.total_latency_ms
                == m.total_latency_ms + latency_ms
        }),
{
    let n = m.total_latency_ms + latency_ms;
    vstd::arithmetic::div_mod::lemma_mod_pos_bound(n, 0x1_0000_0000_0000_0000);
    if n < 0x1_0000_0000_0000_0000 {
        vstd::arithmetic::div_mod::lemma_small_mod(n as nat, 0x1_0000_0000_0000_0000);
    }
}

/// A failure is one request and one failure more, and is the last request and
/// the last error; it leaves the successes, their latencies and the classes alone.
pub proof fn failures_are_counted(m: MetricsModel, error: Seq<char>, now: int)
    requires
        0 <= m.total_requests < 0xffff_ffff_ffff_ffff,
        0 <= m.failed_requests < 0xffff_ffff_ffff_ffff,
    ensures
        ({
            let after = m.failed(error, now);
            &&& after.total_requests == m.total_requests + 1
            &&& after.failed_requests == m.failed_requests + 1
            &&& after.successful_requests == m.successful_requests
            &&& after.rate_limited_count == m.rate_limited_count
            &&& after.auth_errors == m.auth_errors
            &&& after.timeout_count == m.timeout_count
            &&& after.total_latency_ms == m.total_latency_ms
            &&& after.last_error == Some(error)
            &&& after.last_request_at == Some(now)
        }),
{
}

/// A counter goes up by one and stays at the end of its range.
pub proof fn counters_go_up(n: int)
    ensures
        n < 0xffff_ffff_ffff_ffff ==> counted(n) == n + 1,
        n == 0xffff_ffff_ffff_ffff ==> counted(n) == n,
{
}

/// Latencies beyond the range of their sum wrap around: the sum is off by a
/// multiple of the range.
pub proof fn latency_sum_wraps_around(m: MetricsModel, latency_ms: int, now: int) -> (turns: int)
    requires
        0 <= m.total_latency_ms,
        0 <= latency_ms,
    ensures
        m.succeeded(latency_ms, now).total_latency_ms + turns * 0x1_0000_0000_0000_0000
            == m.total_latency_ms + latency_ms,
        0 <= m.succeeded(latency_ms, now).total_latency_ms < 0x1_0000_0000_0000_0000,
{
    let n = m.total_latency_ms + latency_ms;
    vstd::arithmetic::div_mod::lemma_mod_pos_bound(n, 0x1_0000_0000_0000_0000);
    vstd::arithmetic::div_mod::lemma_fundamental_div_mod(n, 0x1_0000_0000_0000_0000);
    n / 0x1_0000_0000_0000_0000
}

/// The average is the sum of latencies over the successes, and the share that
/// of the failures in all requests; both are 0 where there is nothing to divide by.
pub proof fn quotients_of_the_counters(m: MetricsModel)
    requires
        0 <= m.total_requests <= 0xffff_ffff_ffff_ffff,
        0 <= m.successful_requests <= 0xffff_ffff_ffff_ffff,
        0 <= m.failed_requests <= 0xffff_ffff_ffff_ffff,
        0 <= m.total_latency_ms <= 0xffff_ffff_ffff_ffff,
    ensures
        m.successful_requests > 0 ==> m.average_latency().numerator == m.total_latency_ms
            && m.average_latency().denominator == m.successful_requests,
        m.successful_requests == 0 ==> m.average_latency().numerator == 0
            && m.average_latency().denominator == 1,
        m.total_requests > 0 ==> m.failure_share().numerator == m.failed_requests
            && m.failure_share().denominator == m.total_requests,
        m.total_requests == 0 ==> m.failure_share().numerator == 0
            && m.failure_share().denominator == 1,
{
}

/// A snapshot reports the counters as they are, with both quotients and with
/// the date of the last request.
pub proof fn snapshots_report_the_counters(m: MetricsModel, t: int)
    ensures
        ({
            let s = MetricsSnapshotModel::of(m);
            &&& s.total_requests == m.total_requests
            &&& s.successful_requests == m.successful_requests
            &&& s.failed_requests == m.failed_requests
            &&& s.error_rate == m.failure_share()
            &&& s.avg_latency_ms == m.average_latency()
            &&& s.last_error == m.last_error
            &&& m.last_request_at is None ==> s.last_request_at is None
            &&& m.last_request_at == Some(t) ==> s.last_request_at == Some(clock::rfc3339_of(t))
        }),
{
}

/// Counters and reports hold what their models say.
pub proof fn models_of_metrics(m: ProviderMetrics, s: ProviderMetricsSnapshot, h: HealthSnapshot)
    ensures
        m@.total_requests == m.total_requests && m@.successful_requests == m.successful_requests,
        m@.failed_requests == m.failed_requests && m@.rate_limited_count == m.rate_limited_count,
        m@.auth_errors == m.auth_errors && m@.timeout_count == m.timeout_count,
        m@.total_latency_ms == m.total_latency_ms,
        m.last_request_at matches Some(t) ==> m@.last_request_at == Some(t@),
        m.last_request_at is None ==> m@.last_request_at is None,
        m.last_error matches Some(e) ==> m@.last_error == Some(e@),
        m.last_error is None ==> m@.last_error is None,
        s@.total_requests == s.total_requests && s@.successful_requests == s.successful_requests,
        s@.failed_requests == s.failed_requests && s@.error_rate == s.error_rate,
        s@.avg_latency_ms == s.avg_latency_ms,
        s.last_request_at matches Some(t) ==> s@.last_request_at == Some(t@),
        s.last_request_at is None ==> s@.last_request_at is None,
        s.last_error matches Some(e) ==> s@.last_error == Some(e@),
        s.last_error is None ==> s@.last_error is None,
        h@.provider == h.provider@ && h@.breaker_state == h.breaker_state@,
        h@.consecutive_failures == h.consecutive_failures && h@.metrics == h.metrics@,
        h@.models.len() == h.models@.len(),
        forall|i: int| 0 <= i < h.models@.len() ==> #[trigger] h@.models[i] == h.models@[i]@,
{
}

} // verus!
