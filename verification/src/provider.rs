//! One provider: what it serves, its keys, its breaker and its counters.

use crate::circuit_breaker::{BreakerModel, CircuitBreaker};
use crate::clock::{self, Timestamp};
use crate::config::{ProviderConfig, ProviderConfigModel};
use crate::error::{ApiError, ApiErrorModel};
use crate::key_chain::{KeyChain, KeyChainModel};
use crate::metrics::{self, HealthModel, HealthSnapshot, MetricsModel, MetricsSnapshotModel, ProviderMetrics, ProviderMetricsSnapshot};
use crate::{text, transport};
use vstd::prelude::*;

verus! {

/// How long a request may take, in seconds.
pub const REQUEST_TIMEOUT_SECS: u64 = 300;

/// What a provider is, as a mathematical value.
pub struct ProviderModel {
    pub name: Seq<char>,
    pub base_url: Seq<char>,
    pub models: Seq<Seq<char>>,
    pub keys: KeyChainModel,
    pub breaker: BreakerModel,
    pub metrics: MetricsModel,
}

impl ProviderModel {
    /// A provider that has seen no request yet.
    pub open spec fn fresh(
        name: Seq<char>,
        config: ProviderConfigModel,
        breaker: BreakerModel,
    ) -> ProviderModel {
        ProviderModel {
            name,
            base_url: config.base_url,
            models: config.models,
            keys: KeyChainModel::fresh(config.keys),
            breaker,
            metrics: MetricsModel::fresh(),
        }
    }

    pub open spec fn consistent(self) -> bool {
        &&& self.keys.consistent()
        &&& self.breaker.consistent()
    }

    /// The local fallback: it serves every model and needs no key.
    pub open spec fn is_local(self) -> bool {
        self.name == "ollama"@
    }

    /// Whether the provider serves a model.
    pub open spec fn serves(self, model: Seq<char>) -> bool {
        self.is_local() || self.models.contains(model)
    }

    /// Whether the provider has a key, or needs none.
    pub open spec fn has_key(self) -> bool {
        self.is_local() || self.keys.keys.len() > 0
    }

    /// The breaker that a request asks at the time `now`. A probe is lost once
    /// its request must have timed out.
    pub open spec fn breaker_at(self, now: int) -> BreakerModel {
        self.breaker.without_lost_probe(REQUEST_TIMEOUT_SECS as int, now)
    }

    /// Whether the breaker lets a request pass at the time `now`.
    pub open spec fn available(self, now: int) -> bool {
        self.breaker_at(now).allows(now)
    }

    /// The provider after a request has asked its breaker at the time `now`.
    pub open spec fn asked(self, now: int) -> ProviderModel {
        ProviderModel { breaker: self.breaker_at(now).asked(now), ..self }
    }

    /// The provider after a success.
    pub open spec fn succeeded(self, latency_ms: int, now: int) -> ProviderModel {
        ProviderModel {
            breaker: self.breaker.succeeded(),
            metrics: self.metrics.succeeded(latency_ms, now),
            ..self
        }
    }

    /// The counters with the class of the error counted.
    pub open spec fn class_counted(self, e: ApiErrorModel) -> MetricsModel {
        match e {
            ApiErrorModel::Auth { .. } => MetricsModel {
                auth_errors: metrics::counted(self.metrics.auth_errors),
                ..self.metrics
            },
            ApiErrorModel::RateLimited { .. } => MetricsModel {
                rate_limited_count: metrics::counted(self.metrics.rate_limited_count),
                ..self.metrics
            },
            ApiErrorModel::Timeout { .. } => MetricsModel {
                timeout_count: metrics::counted(self.metrics.timeout_count),
                ..self.metrics
            },
            _ => self.metrics,
        }
    }

    /// The provider after a failure. One that does not count against it only
    /// ends the probe, if one was out.
    pub open spec fn failed(self, e: ApiErrorModel, now: int) -> ProviderModel {
        ProviderModel {
            breaker: if e.breaker_failure() {
                self.breaker.failed(now)
            } else {
                self.breaker.released()
            },
            metrics: self.class_counted(e).failed(e.message(), now),
            ..self
        }
    }

    /// What the gateway does with a response of the given status; `empty` tells
    /// whether its body is empty.
    pub open spec fn verdict(
        self,
        status: u16,
        retry_after: Option<Seq<char>>,
        empty: bool,
    ) -> VerdictModel {
        if status == 429 {
            VerdictModel::Fail(
                ApiErrorModel::RateLimited {
                    provider: self.name,
                    retry_after_secs: match retry_after {
                        Some(value) => text::spelled_number(value),
                        None => None,
                    },
                },
            )
        } else if refuses_key(status) || status >= 500 {
            VerdictModel::ReadBody
        } else if status == 200 && empty {
            VerdictModel::Fail(ApiErrorModel::EmptyResponse { provider: self.name })
        } else {
            VerdictModel::Pass
        }
    }

    /// The provider after a response of the given status: the key that was
    /// refused is out of use.
    pub open spec fn responded(self, status: u16) -> ProviderModel {
        if refuses_key(status) {
            ProviderModel { keys: self.keys.refused(), ..self }
        } else {
            self
        }
    }

    /// The error that a response stands for, once its body has been read.
    pub open spec fn error_response(self, status: u16, body: Seq<char>) -> ApiErrorModel {
        if refuses_key(status) {
            ApiErrorModel::Auth { provider: self.name, status, body }
        } else {
            ApiErrorModel::ServerError { provider: self.name, status, body }
        }
    }

    /// The error that a request without a response stands for.
    pub open spec fn lost_request(self, timed_out: bool, msg: Seq<char>) -> ApiErrorModel {
        if timed_out {
            ApiErrorModel::Timeout { provider: self.name, secs: REQUEST_TIMEOUT_SECS }
        } else {
            ApiErrorModel::NetworkError { provider: self.name, msg }
        }
    }

    /// The request to send upstream.
    pub open spec fn request(self, path: Seq<char>, content_type: Seq<char>) -> RequestModel {
        RequestModel {
            url: self.base_url + path,
            bearer: self.keys.active(),
            content_type,
        }
    }

    /// What is reported of the provider's health.
    pub open spec fn health(self) -> HealthModel {
        HealthModel {
            provider: self.name,
            breaker_state: self.breaker.state.name(),
            consecutive_failures: self.breaker.failures,
            metrics: MetricsSnapshotModel::of(self.metrics),
            models: self.models,
        }
    }
}

/// Whether a status says that the key was refused.
pub open spec fn refuses_key(status: u16) -> bool {
    status == 401 || status == 403
}

/// A request to a provider.
#[derive(Debug)]
pub struct UpstreamRequest {
    pub url: String,
    /// The key to authenticate with, if there is one.
    pub bearer: Option<String>,
    pub content_type: String,
}

/// What a request is, as a mathematical value.
pub struct RequestModel {
    pub url: Seq<char>,
    pub bearer: Option<Seq<char>>,
    pub content_type: Seq<char>,
}

impl View for UpstreamRequest {
    type V = RequestModel;

    open spec fn view(&self) -> RequestModel {
        RequestModel {
            url: self.url@,
            bearer: text::text_of(self.bearer),
            content_type: self.content_type@,
        }
    }
}

/// What to do with a response.
#[derive(Debug)]
pub enum Verdict {
    /// Hand it to the client.
    Pass,
    /// It is an error.
    Fail(ApiError),
    /// It is an error, and its body says which.
    ReadBody,
}

/// What a verdict is, as a mathematical value.
pub enum VerdictModel {
    Pass,
    Fail(ApiErrorModel),
    ReadBody,
}

impl View for Verdict {
    type V = VerdictModel;

    open spec fn view(&self) -> VerdictModel {
        match *self {
            Verdict::Pass => VerdictModel::Pass,
            Verdict::Fail(e) => VerdictModel::Fail(e@),
            Verdict::ReadBody => VerdictModel::ReadBody,
        }
    }
}

/// A provider with its keys, its breaker and its counters.
#[derive(Debug)]
pub struct Provider {
    pub name: String,
    pub base_url: String,
    pub models: Vec<String>,
    pub key_chain: KeyChain,
    pub breaker: CircuitBreaker,
    pub metrics: ProviderMetrics,
}

impl View for Provider {
    type V = ProviderModel;

    open spec fn view(&self) -> ProviderModel {
        ProviderModel {
            name: self.name@,
            base_url: self.base_url@,
            models: text::texts(self.models@),
            keys: self.key_chain@,
            breaker: self.breaker@,
            metrics: self.metrics@,
        }
    }
}

impl Provider {
    pub open spec fn wf(&self) -> bool {
        self@.consistent()
    }

    /// A provider that has seen no request yet.
    pub fn new(name: &str, config: &ProviderConfig, breaker: CircuitBreaker) -> (r: Provider)
        requires
            breaker.wf(),
        ensures
            r.wf(),
            r@ == ProviderModel::fresh(name@, config@, breaker@),
    {
        Provider {
            name: name.to_string(),
            base_url: config.base_url.clone(),
            models: text::clone_texts(&config.models),
            key_chain: KeyChain::new(text::clone_texts(&config.keys)),
            breaker,
            metrics: ProviderMetrics::new(),
        }
    }

    /// Whether the provider is the local fallback.
    pub fn is_local(&self) -> (r: bool)
        ensures
            r == self@.is_local(),
    {
        text::same_text(self.name.as_str(), "ollama")
    }

    /// Whether the provider serves the model. The local fallback serves every one.
    pub fn serves_model(&self, model: &str) -> (r: bool)
        ensures
            r == self@.serves(model@),
    {
        if self.is_local() {
            return true;
        }
        for i in 0..self.models.len()
            invariant
                !self@.is_local(),
                forall|j: int| 0 <= j < i ==> #[trigger] self@.models[j] != model@,
        {
            assert(self@.models[i as int] == self.models@[i as int]@);
            if text::same_text(self.models[i].as_str(), model) {
                assert(self@.models.contains(model@));
                return true;
            }
        }
        assert(!self@.models.contains(model@));
        false
    }

    /// Whether the breaker lets a request pass now.
    pub fn is_available(&mut self) -> (r: bool)
        requires
            old(self).wf(),
        ensures
            final(self).wf(),
            exists|now: int| #[trigger]
                old(self)@.asked(now) == final(self)@ && r == old(self)@.available(now)
                    && clock::can_show(now),
    {
        let now = Timestamp::now();
        self.is_available_at(now)
    }

    /// Whether the breaker lets a request pass at the time `now`.
    pub fn is_available_at(&mut self, now: Timestamp) -> (r: bool)
        requires
            old(self).wf(),
        ensures
            final(self).wf(),
            final(self)@ == old(self)@.asked(now@),
            r == old(self)@.available(now@),
    {
        self.breaker.drop_lost_probe_at(REQUEST_TIMEOUT_SECS, now);
        self.breaker.allow_request_at(now)
    }

    /// Whether the provider has a key, or needs none.
    pub fn has_key(&self) -> (r: bool)
        ensures
            r == self@.has_key(),
    {
        !self.key_chain.is_empty() || self.is_local()
    }

    /// The request to send upstream, with the key in use.
    pub fn request(&self, path: &str, content_type: &str) -> (r: UpstreamRequest)
        requires
            self.wf(),
        ensures
            r@ == self@.request(path@, content_type@),
    {
        let mut url = self.base_url.clone();
        url.append(path);
        UpstreamRequest {
            url,
            bearer: self.key_chain.current_key(),
            content_type: content_type.to_string(),
        }
    }

    /// The error that a request without a response stands for.
    pub fn request_failed(&self, e: &reqwest::Error) -> (r: ApiError)
        ensures
            r@ == self@.lost_request(
                transport::failure_timed_out(*e),
                transport::failure_text(*e),
            ),
    {
        self.lost_request(transport::timed_out(e), transport::message(e))
    }

    /// The error that a request without a response stands for.
    pub fn lost_request(&self, timed_out: bool, msg: String) -> (r: ApiError)
        ensures
            r@ == self@.lost_request(timed_out, msg@),
    {
        if timed_out {
            ApiError::Timeout { provider: self.name.clone(), secs: REQUEST_TIMEOUT_SECS }
        } else {
            ApiError::NetworkError { provider: self.name.clone(), msg }
        }
    }

    /// Decides what to do with a response, given its status, the value of its
    /// `Retry-After` header, and whether its body is empty. A key that was
    /// refused goes out of use.
    pub fn response_received(
        &mut self,
        status: u16,
        retry_after: Option<&str>,
        empty: bool,
    ) -> (r: Verdict)
        requires
            old(self).wf(),
        ensures
            final(self).wf(),
            final(self)@ == old(self)@.responded(status),
            r@ == old(self)@.verdict(
                status,
                match retry_after {
                    Some(value) => Some(value@),
                    None => None,
                },
                empty,
            ),
    {
        if status == 429 {
            let retry_after_secs: Option<u64> = match retry_after {
                Some(value) => text::parse_number(value),
                None => None,
            };
            return Verdict::Fail(
                ApiError::RateLimited { provider: self.name.clone(), retry_after_secs },
            );
        }
        if status == 401 || status == 403 {
            self.key_chain.mark_current_bad();
            return Verdict::ReadBody;
        }
        if status >= 500 {
            Verdict::ReadBody
        } else if status == 200 && empty {
            Verdict::Fail(ApiError::EmptyResponse { provider: self.name.clone() })
        } else {
            Verdict::Pass
        }
    }

    /// The error that a response stands for, once its body has been read.
    pub fn error_response(&self, status: u16, body: String) -> (r: ApiError)
        requires
            refuses_key(status) || status >= 500,
        ensures
            r@ == self@.error_response(status, body@),
    {
        if status == 401 || status == 403 {
            ApiError::Auth { provider: self.name.clone(), status, body }
        } else {
            ApiError::ServerError { provider: self.name.clone(), status, body }
        }
    }

    /// Notes a success now that took `latency_ms` milliseconds.
    pub fn record_success(&mut self, latency_ms: u128)
        requires
            old(self).wf(),
        ensures
            final(self).wf(),
            exists|now: int| #[trigger]
                old(self)@.succeeded(latency_ms as int, now) == final(self)@ && clock::can_show(now),
    {
        let now = Timestamp::now();
        self.record_success_at(latency_ms, now);
    }

    /// Notes a success at the time `now` that took `latency_ms` milliseconds.
    pub fn record_success_at(&mut self, latency_ms: u128, now: Timestamp)
        requires
            old(self).wf(),
        ensures
            final(self).wf(),
            final(self)@ == old(self)@.succeeded(latency_ms as int, now@),
    {
        self.breaker.record_success();
        self.metrics.record_success_at(latency_ms, now);
    }

    /// Notes a failure now.
    pub fn record_failure(&mut self, error: &ApiError)
        requires
            old(self).wf(),
        ensures
            final(self).wf(),
            exists|now: int| #[trigger]
                old(self)@.failed(error@, now) == final(self)@ && clock::can_show(now),
    {
        let now = Timestamp::now();
        self.record_failure_at(error, now);
    }

    /// Notes a failure at the time `now`.
    pub fn record_failure_at(&mut self, error: &ApiError, now: Timestamp)
        requires
            old(self).wf(),
        ensures
            final(self).wf(),
            final(self)@ == old(self)@.failed(error@, now@),
    {
        if error.is_breaker_failure() {
            self.breaker.record_failure_at(now);
        } else {
            self.breaker.release_probe();
        }
        match error {
            ApiError::Auth { .. } => {
                self.metrics.auth_errors = self.metrics.auth_errors.saturating_add(1);
            },
            ApiError::RateLimited { .. } => {
                self.metrics.rate_limited_count = self.metrics.rate_limited_count.saturating_add(1);
            },
            ApiError::Timeout { .. } => {
                self.metrics.timeout_count = self.metrics.timeout_count.saturating_add(1);
            },
            _ => {},
        }
        self.metrics.record_failure_at(error.to_string().as_str(), now);
    }

    /// What is reported of the provider's health.
    pub fn health(&self) -> (r: HealthSnapshot)
        ensures
            r@ == self@.health(),
    {
        HealthSnapshot {
            provider: self.name.clone(),
            breaker_state: self.breaker.state().as_str().to_string(),
            consecutive_failures: self.breaker.consecutive_failures(),
            metrics: ProviderMetricsSnapshot::from_metrics(&self.metrics),
            models: text::clone_texts(&self.models),
        }
    }
}

// ---------------------------------------------------------------------------
// Laws
// ---------------------------------------------------------------------------

/// Whatever happens to a consistent provider leaves it consistent, under the
/// same name, at the same address and with the same models.
pub proof fn provider_stays_consistent(
    p: ProviderModel,
    e: ApiErrorModel,
    status: u16,
    latency_ms: int,
    now: int,
)
    requires
        p.consistent(),
    ensures
        p.asked(now).consistent(),
        p.succeeded(latency_ms, now).consistent(),
        p.failed(e, now).consistent(),
        p.responded(status).consistent(),
        forall|q: ProviderModel|
            #![trigger q.name]
            (q == p.asked(now) || q == p.succeeded(latency_ms, now) || q == p.failed(e, now) || q
                == p.responded(status)) ==> q.name == p.name && q.base_url == p.base_url
                && q.models == p.models && q.keys.keys == p.keys.keys,
{
    crate::key_chain::refusal_keeps_consistent(p.keys);
}

/// Errors that do not count against a provider leave its breaker alone, but
/// that the probe, if one was out, is over.
pub proof fn forgiven_errors_leave_the_breaker(p: ProviderModel, e: ApiErrorModel, now: int)
    requires
        e is EmptyResponse || e is AllProvidersExhausted,
    ensures
        p.failed(e, now).breaker == p.breaker.released(),
        p.failed(e, now).breaker.state == p.breaker.state,
        p.failed(e, now).breaker.failures == p.breaker.failures,
        p.failed(e, now).breaker.successes == p.breaker.successes,
{
}

/// No outcome of a request leaves a probe out.
pub proof fn outcomes_end_the_probe(p: ProviderModel, e: ApiErrorModel, latency_ms: int, now: int)
    ensures
        !p.succeeded(latency_ms, now).breaker.probing(),
        !p.failed(e, now).breaker.probing(),
{
}

/// A probe of which nothing is ever heard does not keep requests away for good:
/// once its request must have timed out, the next one passes.
pub proof fn lost_probe_makes_way(p: ProviderModel, now: int)
    requires
        p.consistent(),
        p.breaker.probe_at matches Some(sent) && clock::whole_seconds(sent, now)
            >= REQUEST_TIMEOUT_SECS,
    ensures
        p.available(now),
        p.asked(now).breaker.probe_at == Some(now),
{
}

/// A request that is turned away leaves the provider as it was.
pub proof fn refused_requests_leave_no_trace(p: ProviderModel, now: int)
    requires
        p.consistent(),
        !p.available(now),
    ensures
        p.asked(now) == p,
{
}

/// A refused key is not sent again while there is another one: the next
/// request goes out with the next key.
pub proof fn refused_key_is_not_sent_again(
    p: ProviderModel,
    status: u16,
    path: Seq<char>,
    content_type: Seq<char>,
)
    requires
        p.consistent(),
        p.keys.keys.len() > 1,
        refuses_key(status),
    ensures
        p.request(path, content_type).bearer == Some(p.keys.keys[p.keys.current]),
        p.responded(status).request(path, content_type).bearer == Some(
            p.keys.keys[(p.keys.current + 1) % (p.keys.keys.len() as int)],
        ),
{
    crate::key_chain::current_key_is_good(p.keys);
    crate::key_chain::refusal_rotates(p.keys);
}

/// Only a refusal changes which key is sent.
pub proof fn other_events_keep_the_key(
    p: ProviderModel,
    e: ApiErrorModel,
    status: u16,
    latency_ms: int,
    now: int,
)
    requires
        !refuses_key(status),
    ensures
        p.responded(status) == p,
        p.asked(now).keys == p.keys,
        p.succeeded(latency_ms, now).keys == p.keys,
        p.failed(e, now).keys == p.keys,
{
}

/// A response is handed to the client exactly where its status is below 500
/// and neither 401 nor 403 nor 429, and it is not a 200 with an empty body.
pub proof fn responses_that_pass(
    p: ProviderModel,
    status: u16,
    retry_after: Option<Seq<char>>,
    empty: bool,
)
    ensures
        p.verdict(status, retry_after, empty) is Pass <==> status < 500 && status != 401 && status
            != 403 && status != 429 && !(status == 200 && empty),
{
}

/// A 200 with an empty body is an empty response of the provider.
pub proof fn empty_body_is_an_error(p: ProviderModel, retry_after: Option<Seq<char>>)
    ensures
        p.verdict(200, retry_after, true) == VerdictModel::Fail(
            ApiErrorModel::EmptyResponse { provider: p.name },
        ),
{
}

/// The local fallback serves every model and needs no key.
pub proof fn local_fallback_takes_everything(p: ProviderModel, model: Seq<char>)
    requires
        p.is_local(),
    ensures
        p.serves(model),
        p.has_key(),
{
}

/// A provider starts out with what its settings say, and with nothing counted.
pub proof fn providers_start_from_their_settings(
    name: Seq<char>,
    config: ProviderConfigModel,
    breaker: BreakerModel,
)
    ensures
        ({
            let p = ProviderModel::fresh(name, config, breaker);
            &&& p.name == name
            &&& p.base_url == config.base_url
            &&& p.models == config.models
            &&& p.keys.keys == config.keys
            &&& p.keys.current == 0
            &&& p.keys.bad.len() == 0
            &&& p.breaker == breaker
            &&& p.metrics == MetricsModel::fresh()
        }),
{
}

/// A provider serves the models that it lists, and the local fallback every one.
pub proof fn served_models(p: ProviderModel, model: Seq<char>, i: int)
    ensures
        p.name == "ollama"@ ==> p.serves(model),
        0 <= i < p.models.len() && p.models[i] == model ==> p.serves(model),
        (p.name != "ollama"@ && (forall|j: int|
            0 <= j < p.models.len() ==> #[trigger] p.models[j] != model)) ==> !p.serves(model),
{
}

/// A provider has a key where its chain holds one; the local fallback needs none.
pub proof fn keys_that_are_needed(p: ProviderModel)
    ensures
        p.has_key() <==> p.keys.keys.len() > 0 || p.name == "ollama"@,
{
}

/// A request goes to the path below the address of the provider, with the
/// content type given, and with the key in use, if there are keys.
pub proof fn requests_in_full(p: ProviderModel, path: Seq<char>, content_type: Seq<char>)
    requires
        p.consistent(),
    ensures
        p.request(path, content_type).url == p.base_url + path,
        p.request(path, content_type).content_type == content_type,
        p.keys.keys.len() > 0 ==> p.request(path, content_type).bearer == Some(
            p.keys.keys[p.keys.current],
        ),
        p.keys.keys.len() == 0 ==> p.request(path, content_type).bearer is None,
{
    if p.keys.keys.len() > 0 {
        crate::key_chain::current_key_is_good(p.keys);
    }
}

/// When a provider takes requests: always while its breaker is closed; once the
/// cooldown is over while it is open; and while it is half-open, where no probe
/// is out, or the one that is has been for 300 seconds.
pub proof fn when_a_provider_is_available(p: ProviderModel, now: int)
    requires
        p.consistent(),
    ensures
        p.breaker.state == crate::circuit_breaker::BreakerState::Closed ==> p.available(now),
        p.breaker.state == crate::circuit_breaker::BreakerState::Open ==> (p.available(now) <==>
            clock::whole_seconds(p.breaker.opened_at->0, now) >= p.breaker.cooldown_secs),
        p.breaker.state == crate::circuit_breaker::BreakerState::HalfOpen ==> (p.available(now)
            <==> p.breaker.probe_at is None || clock::whole_seconds(p.breaker.probe_at->0, now)
            >= 300),
{
}

/// A request that is let through to a provider that is not closed is its
/// probe; of a closed one it changes nothing. Keys, counters, failures and
/// successes are left alone.
pub proof fn asking_touches_only_the_breaker(p: ProviderModel, now: int)
    requires
        p.consistent(),
    ensures
        p.asked(now).name == p.name && p.asked(now).base_url == p.base_url && p.asked(now).models
            == p.models,
        p.asked(now).keys == p.keys && p.asked(now).metrics == p.metrics,
        p.asked(now).breaker.failures == p.breaker.failures,
        p.asked(now).breaker.successes == p.breaker.successes,
        p.asked(now).breaker.opened_at == p.breaker.opened_at,
        p.breaker.state == crate::circuit_breaker::BreakerState::Closed ==> p.asked(now) == p,
        (p.breaker.state != crate::circuit_breaker::BreakerState::Closed && p.available(now))
            ==> p.asked(now).breaker.state == crate::circuit_breaker::BreakerState::HalfOpen
            && p.asked(now).breaker.probe_at == Some(now),
{
}

/// A success goes to the breaker and to the counters, and nowhere else.
pub proof fn successes_are_noted(p: ProviderModel, latency_ms: int, now: int)
    ensures
        p.succeeded(latency_ms, now).breaker == p.breaker.succeeded(),
        p.succeeded(latency_ms, now).metrics == p.metrics.succeeded(latency_ms, now),
        p.succeeded(latency_ms, now).keys == p.keys,
        p.succeeded(latency_ms, now).name == p.name,
        p.succeeded(latency_ms, now).base_url == p.base_url,
        p.succeeded(latency_ms, now).models == p.models,
{
}

/// Every error but an empty response and the end of the chain is a failure of
/// the breaker: dead keys, rate limits, timeouts, server errors and network errors.
pub proof fn failures_reach_the_breaker(p: ProviderModel, e: ApiErrorModel, now: int)
    requires
        e is Auth || e is RateLimited || e is Timeout || e is ServerError || e is NetworkError,
    ensures
        p.failed(e, now).breaker == p.breaker.failed(now),
{
}

/// A failure is one request and one failure more, with the error as the last
/// one; a dead key, a rate limit and a timeout are also counted by class.
pub proof fn failures_are_noted(p: ProviderModel, e: ApiErrorModel, now: int)
    requires
        0 <= p.metrics.total_requests < 0xffff_ffff_ffff_ffff,
        0 <= p.metrics.failed_requests < 0xffff_ffff_ffff_ffff,
        0 <= p.metrics.auth_errors < 0xffff_ffff_ffff_ffff,
        0 <= p.metrics.rate_limited_count < 0xffff_ffff_ffff_ffff,
        0 <= p.metrics.timeout_count < 0xffff_ffff_ffff_ffff,
    ensures
        ({
            let m = p.failed(e, now).metrics;
            &&& m.total_requests == p.metrics.total_requests + 1
            &&& m.failed_requests == p.metrics.failed_requests + 1
            &&& m.successful_requests == p.metrics.successful_requests
            &&& m.total_latency_ms == p.metrics.total_latency_ms
            &&& m.last_error == Some(e.message())
            &&& m.last_request_at == Some(now)
            &&& e is Auth ==> m.auth_errors == p.metrics.auth_errors + 1
            &&& !(e is Auth) ==> m.auth_errors == p.metrics.auth_errors
            &&& e is RateLimited ==> m.rate_limited_count == p.metrics.rate_limited_count + 1
            &&& !(e is RateLimited) ==> m.rate_limited_count == p.metrics.rate_limited_count
            &&& e is Timeout ==> m.timeout_count == p.metrics.timeout_count + 1
            &&& !(e is Timeout) ==> m.timeout_count == p.metrics.timeout_count
        }),
        p.failed(e, now).keys == p.keys,
        p.failed(e, now).name == p.name,
        p.failed(e, now).base_url == p.base_url,
        p.failed(e, now).models == p.models,
{
}

/// A class that has been counted to the end of its range stays there.
pub proof fn full_classes_stay_full(p: ProviderModel, e: ApiErrorModel, now: int)
    ensures
        e is Auth && p.metrics.auth_errors == 0xffff_ffff_ffff_ffff ==> p.failed(
            e,
            now,
        ).metrics.auth_errors == 0xffff_ffff_ffff_ffff,
        e is RateLimited && p.metrics.rate_limited_count == 0xffff_ffff_ffff_ffff ==> p.failed(
            e,
            now,
        ).metrics.rate_limited_count == 0xffff_ffff_ffff_ffff,
        e is Timeout && p.metrics.timeout_count == 0xffff_ffff_ffff_ffff ==> p.failed(
            e,
            now,
        ).metrics.timeout_count == 0xffff_ffff_ffff_ffff,
{
}

/// The provider after errors, each at its time, with nothing in between.
pub open spec fn failed_with_all(
    p: ProviderModel,
    errors: Seq<(ApiErrorModel, int)>,
) -> ProviderModel
    decreases errors.len(),
{
    if errors.len() == 0 {
        p
    } else {
        failed_with_all(p, errors.drop_last()).failed(errors.last().0, errors.last().1)
    }
}

/// The times of errors.
pub open spec fn times_of(errors: Seq<(ApiErrorModel, int)>) -> Seq<int> {
    Seq::new(errors.len(), |i: int| errors[i].1)
}

proof fn lemma_failures_in_a_row(p: ProviderModel, errors: Seq<(ApiErrorModel, int)>)
    requires
        forall|i: int|
            0 <= i < errors.len() ==> {
                let e = (#[trigger] errors[i]).0;
                e is Auth || e is RateLimited || e is Timeout || e is ServerError
                    || e is NetworkError
            },
    ensures
        failed_with_all(p, errors).breaker == p.breaker.failed_at_all(times_of(errors)),
    decreases errors.len(),
{
    if errors.len() > 0 {
        let head = errors.drop_last();
        assert forall|i: int| 0 <= i < head.len() implies {
            let e = (#[trigger] head[i]).0;
            e is Auth || e is RateLimited || e is Timeout || e is ServerError || e is NetworkError
        } by {
            assert(errors[i] == head[i]);
        }
        lemma_failures_in_a_row(p, head);
        assert(times_of(errors).drop_last() =~= times_of(head));
        let last = errors[errors.len() - 1];
        assert(times_of(errors).last() == last.1);
        failures_reach_the_breaker(failed_with_all(p, head), last.0, last.1);
    } else {
        assert(times_of(errors).len() == 0);
    }
}

/// A provider that has failed as often in a row as its threshold says, by
/// errors of whatever class that counts, takes no request until the cooldown is over.
pub proof fn failing_provider_is_left_alone(
    p: ProviderModel,
    errors: Seq<(ApiErrorModel, int)>,
    now: int,
)
    requires
        p.consistent(),
        p.breaker.state == crate::circuit_breaker::BreakerState::Closed,
        p.breaker.failures == 0,
        errors.len() == p.breaker.failure_threshold,
        errors.len() > 0,
        forall|i: int|
            0 <= i < errors.len() ==> {
                let e = (#[trigger] errors[i]).0;
                e is Auth || e is RateLimited || e is Timeout || e is ServerError
                    || e is NetworkError
            },
    ensures
        ({
            let after = failed_with_all(p, errors);
            let tripped = errors[errors.len() - 1].1;
            &&& after.breaker.state == crate::circuit_breaker::BreakerState::Open
            &&& after.breaker.failures == errors.len()
            &&& clock::whole_seconds(tripped, now) < p.breaker.cooldown_secs ==> !after.available(
                now,
            )
            &&& clock::whole_seconds(tripped, now) >= p.breaker.cooldown_secs ==> after.available(
                now,
            )
        }),
{
    lemma_failures_in_a_row(p, errors);
    crate::circuit_breaker::trips_at_the_threshold(p.breaker, times_of(errors));
    lemma_failures_keep_cooldown(p.breaker, times_of(errors));
}

proof fn lemma_failures_keep_cooldown(b: BreakerModel, times: Seq<int>)
    requires
        b.probe_at is None,
    ensures
        b.failed_at_all(times).cooldown_secs == b.cooldown_secs,
        b.failed_at_all(times).probe_at is None,
    decreases times.len(),
{
    if times.len() > 0 {
        lemma_failures_keep_cooldown(b, times.drop_last());
    }
}

/// What becomes of a response, by its status: 429 is a rate limit, with the
/// wait that the provider asked for; of 401, 403, and 500 or more the body is
/// read; an empty 200 is an empty response; everything else passes.
pub proof fn verdicts_by_status(
    p: ProviderModel,
    status: u16,
    retry_after: Option<Seq<char>>,
    empty: bool,
)
    ensures
        status == 429 && retry_after is None ==> p.verdict(status, retry_after, empty)
            == VerdictModel::Fail(
            ApiErrorModel::RateLimited { provider: p.name, retry_after_secs: None },
        ),
        (status == 429 && retry_after is Some) ==> p.verdict(status, retry_after, empty)
            == VerdictModel::Fail(
            ApiErrorModel::RateLimited {
                provider: p.name,
                retry_after_secs: text::spelled_number(retry_after->0),
            },
        ),
        status == 401 || status == 403 || status >= 500 ==> p.verdict(status, retry_after, empty)
            is ReadBody,
        status == 200 && empty ==> p.verdict(status, retry_after, empty) == VerdictModel::Fail(
            ApiErrorModel::EmptyResponse { provider: p.name },
        ),
        status < 500 && status != 401 && status != 403 && status != 429 && !(status == 200 && empty)
            ==> p.verdict(status, retry_after, empty) is Pass,
{
}

/// A response of status 401 or 403 refuses the key in use, and no other does;
/// nothing else of the provider changes.
pub proof fn only_refusals_turn_the_keys(p: ProviderModel, status: u16)
    ensures
        status == 401 || status == 403 ==> p.responded(status).keys == p.keys.refused(),
        status != 401 && status != 403 ==> p.responded(status) == p,
        p.responded(status).breaker == p.breaker,
        p.responded(status).metrics == p.metrics,
        p.responded(status).name == p.name,
        p.responded(status).base_url == p.base_url,
        p.responded(status).models == p.models,
{
}

/// A response of status 401 or 403 is a dead key, and one of 500 or more a
/// server error; both name the provider and hold the status and the body.
pub proof fn errors_by_status(p: ProviderModel, status: u16, body: Seq<char>)
    ensures
        status == 401 || status == 403 ==> p.error_response(status, body) == (ApiErrorModel::Auth {
            provider: p.name,
            status,
            body,
        }),
        status >= 500 ==> p.error_response(status, body) == (ApiErrorModel::ServerError {
            provider: p.name,
            status,
            body,
        }),
{
}

/// A request without a response has timed out after 300 seconds, or failed on
/// the way for the reason given.
pub proof fn lost_requests_by_cause(p: ProviderModel, msg: Seq<char>)
    ensures
        p.lost_request(true, msg) == (ApiErrorModel::Timeout { provider: p.name, secs: 300 }),
        p.lost_request(false, msg) == (ApiErrorModel::NetworkError { provider: p.name, msg }),
{
}

/// The health report names the provider and its models, and tells the state of
/// its breaker, its failures in a row and its counters.
pub proof fn health_in_full(p: ProviderModel)
    ensures
        p.health().provider == p.name,
        p.health().models == p.models,
        p.health().consecutive_failures == p.breaker.failures,
        p.health().metrics == MetricsSnapshotModel::of(p.metrics),
        p.health().breaker_state == p.breaker.state.name(),
{
}

/// A provider, a request and a verdict hold what their models say.
pub proof fn models_of_providers(p: Provider, r: UpstreamRequest, v: Verdict)
    ensures
        p@.name == p.name@ && p@.base_url == p.base_url@ && p@.models == text::texts(p.models@),
        p@.keys == p.key_chain@ && p@.breaker == p.breaker@ && p@.metrics == p.metrics@,
        r@.url == r.url@ && r@.content_type == r.content_type@,
        r.bearer matches Some(key) ==> r@.bearer == Some(key@),
        r.bearer is None ==> r@.bearer is None,
        v is Pass ==> v@ is Pass,
        v is ReadBody ==> v@ is ReadBody,
        v matches Verdict::Fail(e) ==> v@ == VerdictModel::Fail(e@),
{
}

} // verus!
