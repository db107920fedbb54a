//! One request on its way along the provider chain.
//!
//! A `ChainWalk` decides what happens next: which provider the request goes
//! to, whether a failure is retried and after how long, and when to give up.
//! The program around it sends, waits and reads, and reports back what came of it.

use crate::clock::{self, Timestamp};
use crate::config::Config;
use crate::error::{ApiError, ApiErrorModel};
use crate::provider::{ProviderModel, RequestModel, UpstreamRequest, Verdict, VerdictModel};
use crate::proxy::{self, ErrorReply, ReplyModel};
use crate::server::{self, AppModel, AppState};
use crate::taxonomy::EMPTY_RESPONSE_MAX_RETRIES;
use crate::{circuit_breaker, provider, text, transport};
use vstd::arithmetic::power2;
use vstd::prelude::*;

verus! {

// ---------------------------------------------------------------------------
// Backing off
// ---------------------------------------------------------------------------

/// How long to wait before the next attempt, in milliseconds: exactly as long
/// as the provider asked for, else twice as long with each attempt, up to the
/// end of the 64-bit range.
pub open spec fn backoff(e: ApiErrorModel, initial_ms: int, attempt: nat) -> int {
    match e {
        ApiErrorModel::RateLimited { retry_after_secs: Some(secs), .. } => secs * 1000,
        _ => server::capped(initial_ms * power2::pow2(attempt)),
    }
}

fn doubled(initial_ms: u64, times: u64) -> (r: u64)
    ensures
        r == server::capped(initial_ms * power2::pow2(times as nat)),
{
    let mut value: u64 = initial_ms;
    let mut i: u64 = 0;
    proof {
        power2::lemma2_to64();
    }
    while i < times
        invariant
            i <= times,
            value == initial_ms * power2::pow2(i as nat),
        decreases times - i,
    {
        if value == 0 {
            proof {
                power2::lemma_pow2_pos(i as nat);
                assert(initial_ms == 0) by (nonlinear_arith)
                    requires
                        0 == initial_ms * power2::pow2(i as nat),
                        power2::pow2(i as nat) > 0,
                ;
            }
            return 0;
        }
        if value > u64::MAX / 2 {
            proof {
                power2::lemma_pow2_unfold((i + 1) as nat);
                if i + 1 < times {
                    power2::lemma_pow2_strictly_increases((i + 1) as nat, times as nat);
                }
                assert(initial_ms * power2::pow2(times as nat) > u64::MAX) by (nonlinear_arith)
                    requires
                        value > u64::MAX / 2,
                        value == initial_ms * power2::pow2(i as nat),
                        power2::pow2((i + 1) as nat) == 2 * power2::pow2(i as nat),
                        power2::pow2((i + 1) as nat) <= power2::pow2(times as nat),
                ;
            }
            return u64::MAX;
        }
        proof {
            power2::lemma_pow2_unfold((i + 1) as nat);
            assert(initial_ms * power2::pow2((i + 1) as nat) == 2 * value) by (nonlinear_arith)
                requires
                    value == initial_ms * power2::pow2(i as nat),
                    power2::pow2((i + 1) as nat) == 2 * power2::pow2(i as nat),
            ;
        }
        value = value * 2;
        i = i + 1;
    }
    value
}

/// How long to wait before the next attempt, in milliseconds.
pub fn backoff_ms(e: &ApiError, initial_ms: u64, attempt: u64) -> (r: u128)
    ensures
        r == backoff(e@, initial_ms as int, attempt as nat),
{
    match e {
        ApiError::RateLimited { retry_after_secs: Some(secs), .. } => *secs as u128 * 1000,
        _ => doubled(initial_ms, attempt) as u128,
    }
}

// ---------------------------------------------------------------------------
// The walk
// ---------------------------------------------------------------------------

/// What a request is waiting for.
#[derive(Debug, Clone, Copy, PartialEq, Eq, Structural)]
pub enum Phase {
    /// The choice of the next provider.
    Choosing,
    /// The response of a provider.
    Sent,
    /// The body of a response that is known to be an error.
    Reading {
        status: u16,
    },
    /// The end of a pause.
    Waiting,
    /// Nothing more: the client has its answer.
    Done,
}

/// What to do next.
#[derive(Debug)]
pub enum Step {
    /// Send a request to a provider.
    Send { provider: String, request: UpstreamRequest },
    /// Read the body of the response.
    ReadBody,
    /// Pause.
    Wait { millis: u128 },
    /// Hand the response to the client.
    Stream,
    /// Answer the client with an error.
    Reply(ErrorReply),
}

/// What a step is, as a mathematical value.
pub enum StepModel {
    Send { provider: Seq<char>, request: RequestModel },
    ReadBody,
    Wait { millis: int },
    Stream,
    Reply(ReplyModel),
}

impl View for Step {
    type V = StepModel;

    open spec fn view(&self) -> StepModel {
        match *self {
            Step::Send { provider, request } => StepModel::Send {
                provider: provider@,
                request: request@,
            },
            Step::ReadBody => StepModel::ReadBody,
            Step::Wait { millis } => StepModel::Wait { millis: millis as int },
            Step::Stream => StepModel::Stream,
            Step::Reply(reply) => StepModel::Reply(reply@),
        }
    }
}

/// What the progress of a request is, as a mathematical value.
pub struct WalkModel {
    /// The model asked for, if one was named.
    pub model: Option<Seq<char>>,
    pub path: Seq<char>,
    pub content_type: Seq<char>,
    /// The providers to try, in order.
    pub order: Seq<Seq<char>>,
    pub max_retries: int,
    pub initial_backoff_ms: int,
    /// The place in the order that the request has got to.
    pub position: int,
    /// How often the provider at that place has been retried.
    pub attempt: int,
    /// How many of those retries were for empty responses.
    pub empties: int,
    pub phase: Phase,
    pub last_error: Option<ApiErrorModel>,
}

/// Whether a provider may be asked for the model, if one was named.
pub open spec fn suits(p: ProviderModel, model: Option<Seq<char>>) -> bool {
    model matches Some(m) ==> p.serves(m)
}

/// Whether a request may go to the provider of the given name at the time
/// `now`: it is known, serves the model, has a key or needs none, and its
/// breaker lets the request pass.
pub open spec fn eligible(
    app: AppModel,
    model: Option<Seq<char>>,
    name: Seq<char>,
    now: int,
) -> bool {
    &&& app.providers.contains_key(name)
    &&& suits(app.providers[name], model)
    &&& app.providers[name].has_key()
    &&& app.providers[name].available(now)
}

/// The first place at or after `from` whose provider is eligible, or the
/// length of the order where there is none.
pub open spec fn first_eligible(
    app: AppModel,
    model: Option<Seq<char>>,
    order: Seq<Seq<char>>,
    from: int,
    now: int,
) -> int
    decreases order.len() - from,
{
    if from < 0 || from >= order.len() {
        order.len() as int
    } else if eligible(app, model, order[from], now) {
        from
    } else {
        first_eligible(app, model, order, from + 1, now)
    }
}

/// The state, the progress and the step that follow an event.
pub struct Outcome {
    pub app: AppModel,
    pub walk: WalkModel,
    pub step: StepModel,
}

impl WalkModel {
    /// A request that has just come in.
    pub open spec fn start(
        config: Config,
        path: Seq<char>,
        content_type: Option<Seq<char>>,
        model: Option<Seq<char>>,
    ) -> WalkModel {
        WalkModel {
            model,
            path,
            content_type: proxy::content_type_or_json(content_type),
            order: text::texts(config.chain.order@),
            max_retries: config.rate_limit.max_retries as int,
            initial_backoff_ms: config.rate_limit.initial_backoff_ms as int,
            position: 0,
            attempt: 0,
            empties: 0,
            phase: Phase::Choosing,
            last_error: None,
        }
    }

    /// What holds of every request at all times.
    pub open spec fn consistent(self) -> bool {
        &&& 0 <= self.position <= self.order.len()
        &&& 0 <= self.max_retries <= u32::MAX
        &&& 0 <= self.empties <= EMPTY_RESPONSE_MAX_RETRIES
        &&& 0 <= self.attempt - self.empties <= self.max_retries
        &&& 0 <= self.initial_backoff_ms <= u64::MAX
        &&& self.with_provider() ==> self.position < self.order.len()
        &&& self.phase == Phase::Choosing ==> self.attempt == 0
        &&& self.phase matches Phase::Reading { status } ==> crate::provider::refuses_key(status)
            || status >= 500
    }

    /// Whether a provider has been chosen and has not been given up.
    pub open spec fn with_provider(self) -> bool {
        self.phase == Phase::Sent || self.phase is Reading || self.phase == Phase::Waiting
    }

    /// The name of the provider that the request has got to.
    pub open spec fn current(self) -> Seq<char> {
        self.order[self.position]
    }

    /// Whether the chosen provider is known to the state.
    pub open spec fn fits(self, app: AppModel) -> bool {
        self.with_provider() ==> app.providers.contains_key(self.current())
    }

    /// The choice of the next provider at the time `now`. Only the one that is
    /// chosen notices: those that are passed over stay as they are.
    pub open spec fn choose_next(self, app: AppModel, now: int) -> Outcome {
        let at = first_eligible(app, self.model, self.order, self.position, now);
        if at < self.order.len() {
            let name = self.order[at];
            Outcome {
                app: app.with(name, app.providers[name].asked(now)),
                walk: WalkModel { position: at, attempt: 0, empties: 0, phase: Phase::Sent, ..self },
                step: StepModel::Send {
                    provider: name,
                    request: app.providers[name].request(self.path, self.content_type),
                },
            }
        } else {
            Outcome {
                app,
                walk: WalkModel {
                    position: self.order.len() as int,
                    attempt: 0,
                    empties: 0,
                    phase: Phase::Done,
                    ..self
                },
                step: StepModel::Reply(
                    proxy::reply_for(
                        match self.last_error {
                            Some(e) => e,
                            None => ApiErrorModel::AllProvidersExhausted,
                        },
                    ),
                ),
            }
        }
    }

    /// How many retries an error has left with the current provider. Empty
    /// responses have a budget of their own.
    pub open spec fn retries_left(self, e: ApiErrorModel) -> int {
        if e is EmptyResponse {
            EMPTY_RESPONSE_MAX_RETRIES - self.empties
        } else {
            self.max_retries - (self.attempt - self.empties)
        }
    }

    /// Whether an error is retried with the same provider.
    pub open spec fn retries(self, e: ApiErrorModel) -> bool {
        e.retriable() && self.retries_left(e) > 0
    }

    /// What follows an error of the current provider at the time `now`.
    pub open spec fn failed(self, app: AppModel, e: ApiErrorModel, now: int) -> Outcome {
        let noted = app.failed(self.current(), e, now);
        if self.retries(e) {
            Outcome {
                app: noted,
                walk: WalkModel {
                    attempt: self.attempt + 1,
                    empties: if e is EmptyResponse {
                        self.empties + 1
                    } else {
                        self.empties
                    },
                    phase: Phase::Waiting,
                    ..self
                },
                step: StepModel::Wait {
                    millis: backoff(e, self.initial_backoff_ms, self.attempt as nat),
                },
            }
        } else {
            self.given_up(e).choose_next(noted, now)
        }
    }

    /// The progress once the current provider has been given up.
    pub open spec fn given_up(self, e: ApiErrorModel) -> WalkModel {
        WalkModel {
            position: self.position + 1,
            attempt: 0,
            empties: 0,
            phase: Phase::Choosing,
            last_error: Some(e),
            ..self
        }
    }

    /// What follows a response of the current provider at the time `now`.
    pub open spec fn responded(
        self,
        app: AppModel,
        status: u16,
        retry_after: Option<Seq<char>>,
        empty: bool,
        latency_ms: int,
        now: int,
    ) -> Outcome {
        let noted = app.responded(self.current(), status);
        match app.verdict(self.current(), status, retry_after, empty) {
            VerdictModel::Pass => Outcome {
                app: noted.succeeded(self.current(), latency_ms, now),
                walk: WalkModel { phase: Phase::Done, ..self },
                step: StepModel::Stream,
            },
            VerdictModel::Fail(e) => self.failed(noted, e, now),
            VerdictModel::ReadBody => Outcome {
                app: noted,
                walk: WalkModel { phase: Phase::Reading { status }, ..self },
                step: StepModel::ReadBody,
            },
        }
    }

    /// What follows the body of a response that is known to be an error.
    pub open spec fn body_read(self, app: AppModel, body: Seq<char>, now: int) -> Outcome {
        self.failed(
            app,
            app.providers[self.current()].error_response(self.phase->status, body),
            now,
        )
    }

    /// What follows a request to the current provider that got no response.
    pub open spec fn lost(self, app: AppModel, timed_out: bool, msg: Seq<char>, now: int) -> Outcome {
        self.failed(app, app.providers[self.current()].lost_request(timed_out, msg), now)
    }

    /// The next attempt with the current provider.
    pub open spec fn tried_again(self, app: AppModel) -> Outcome {
        Outcome {
            app,
            walk: WalkModel { phase: Phase::Sent, ..self },
            step: StepModel::Send {
                provider: self.current(),
                request: app.providers[self.current()].request(self.path, self.content_type),
            },
        }
    }
}

/// The progress of one request along the provider chain.
#[derive(Debug)]
pub struct ChainWalk {
    model: Option<String>,
    path: String,
    content_type: String,
    order: Vec<String>,
    max_retries: u32,
    initial_backoff_ms: u64,
    position: usize,
    attempt: u64,
    empties: u32,
    phase: Phase,
    last_error: Option<ApiError>,
}

impl View for ChainWalk {
    type V = WalkModel;

    closed spec fn view(&self) -> WalkModel {
        WalkModel {
            model: text::text_of(self.model),
            path: self.path@,
            content_type: self.content_type@,
            order: text::texts(self.order@),
            max_retries: self.max_retries as int,
            initial_backoff_ms: self.initial_backoff_ms as int,
            position: self.position as int,
            attempt: self.attempt as int,
            empties: self.empties as int,
            phase: self.phase,
            last_error: match self.last_error {
                Some(e) => Some(e@),
                None => None,
            },
        }
    }
}

impl ChainWalk {
    pub open spec fn wf(&self) -> bool {
        self@.consistent()
    }

    /// A request that has just come in, with the given body.
    pub fn start(config: &Config, path: &str, content_type: Option<String>, body: &[u8]) -> (r:
        ChainWalk)
        ensures
            r.wf(),
            r@ == WalkModel::start(
                *config,
                path@,
                text::text_of(content_type),
                proxy::requested_model(body@),
            ),
    {
        ChainWalk::start_for(config, path, content_type, proxy::extract_model(body))
    }

    /// A request that has just come in and asks for the given model.
    pub fn start_for(
        config: &Config,
        path: &str,
        content_type: Option<String>,
        model: Option<String>,
    ) -> (r: ChainWalk)
        ensures
            r.wf(),
            r@ == WalkModel::start(
                *config,
                path@,
                text::text_of(content_type),
                text::text_of(model),
            ),
    {
        ChainWalk {
            model,
            path: path.to_string(),
            content_type: match content_type {
                Some(value) => value,
                None => "application/json".to_string(),
            },
            order: text::clone_texts(&config.chain.order),
            max_retries: config.rate_limit.max_retries,
            initial_backoff_ms: config.rate_limit.initial_backoff_ms,
            position: 0,
            attempt: 0,
            empties: 0,
            phase: Phase::Choosing,
            last_error: None,
        }
    }

    /// Chooses the next provider at the time `now`: the first along the chain
    /// that a request may go to. Where there is none, the client is answered
    /// with the last error.
    pub fn next_at(&mut self, state: &mut AppState, now: Timestamp) -> (r: Step)
        requires
            old(self).wf(),
            old(self)@.phase == Phase::Choosing,
            old(state).wf(),
        ensures
            final(self).wf(),
            final(self)@.fits(final(state)@),
            final(state).wf(),
            final(state).settings() == old(state).settings(),
            final(self)@ == old(self)@.choose_next(old(state)@, now@).walk,
            final(state)@ == old(self)@.choose_next(old(state)@, now@).app,
            r@ == old(self)@.choose_next(old(state)@, now@).step,
    {
        let ghost app = state@;
        let ghost walk = self@;
        let n: usize = self.order.len();
        while self.position < n
            invariant
                walk == old(self)@,
                app == old(state)@,
                n == walk.order.len(),
                walk.position <= self.position <= n,
                walk.consistent(),
                walk.phase == Phase::Choosing,
                self@ == (WalkModel { position: self.position as int, ..walk }),
                state.wf(),
                state.settings() == old(state).settings(),
                state@ == app,
                first_eligible(app, walk.model, walk.order, walk.position, now@) == first_eligible(
                    app,
                    walk.model,
                    walk.order,
                    self.position as int,
                    now@,
                ),
            decreases n - self.position,
        {
            let ghost name = walk.order[self.position as int];
            assert(name == self.order@[self.position as int]@);
            let request = match state.provider(self.order[self.position].as_str()) {
                Some(provider) => {
                    let suited = match &self.model {
                        Some(model) => provider.serves_model(model.as_str()),
                        None => true,
                    };
                    if suited && provider.has_key() {
                        Some(provider.request(self.path.as_str(), self.content_type.as_str()))
                    } else {
                        None
                    }
                },
                None => None,
            };
            if let Some(request) = request {
                if state.is_available_at(self.order[self.position].as_str(), now) {
                    self.phase = Phase::Sent;
                    return Step::Send { provider: self.order[self.position].clone(), request };
                }
                proof {
                    provider::refused_requests_leave_no_trace(app.providers[name], now@);
                    assert(state@.providers =~= app.providers);
                }
            }
            self.position = self.position + 1;
        }
        self.phase = Phase::Done;
        match &self.last_error {
            Some(e) => Step::Reply(proxy::error_reply(e)),
            None => Step::Reply(proxy::error_reply(&ApiError::AllProvidersExhausted)),
        }
    }

    /// Notes an error of the current provider at the time `now`. The request
    /// is either retried after a pause, or goes on along the chain.
    pub fn failed_at(&mut self, state: &mut AppState, error: ApiError, now: Timestamp) -> (r: Step)
        requires
            old(self).wf(),
            old(self)@.phase == Phase::Sent || old(self)@.phase is Reading,
            old(self)@.fits(old(state)@),
            old(state).wf(),
        ensures
            final(self).wf(),
            final(self)@.fits(final(state)@),
            final(state).wf(),
            final(state).settings() == old(state).settings(),
            final(self)@ == old(self)@.failed(old(state)@, error@, now@).walk,
            final(state)@ == old(self)@.failed(old(state)@, error@, now@).app,
            r@ == old(self)@.failed(old(state)@, error@, now@).step,
    {
        assert(self@.current() == self.order@[self.position as int]@);
        assert(self.order@.len() == self.order.len());
        let empty = matches!(error, ApiError::EmptyResponse { .. });
        let retry = error.should_retry() && if empty {
            self.empties < EMPTY_RESPONSE_MAX_RETRIES
        } else {
            self.attempt - (self.empties as u64) < self.max_retries as u64
        };
        state.record_failure_at(self.order[self.position].as_str(), &error, now);
        if retry {
            let millis: u128 = backoff_ms(&error, self.initial_backoff_ms, self.attempt);
            self.attempt = self.attempt + 1;
            if empty {
                self.empties = self.empties + 1;
            }
            self.phase = Phase::Waiting;
            return Step::Wait { millis };
        }
        self.last_error = Some(error);
        self.position = self.position + 1;
        self.attempt = 0;
        self.empties = 0;
        self.phase = Phase::Choosing;
        self.next_at(state, now)
    }

    /// Notes a response of the current provider at the time `now`, given its
    /// status, the value of its `Retry-After` header, whether its body is
    /// empty, and how long it took.
    pub fn response_at(
        &mut self,
        state: &mut AppState,
        status: u16,
        retry_after: Option<&str>,
        empty: bool,
        latency_ms: u128,
        now: Timestamp,
    ) -> (r: Step)
        requires
            old(self).wf(),
            old(self)@.phase == Phase::Sent,
            old(self)@.fits(old(state)@),
            old(state).wf(),
        ensures
            final(self).wf(),
            final(self)@.fits(final(state)@),
            final(state).wf(),
            final(state).settings() == old(state).settings(),
            ({
                let outcome = old(self)@.responded(
                    old(state)@,
                    status,
                    match retry_after {
                        Some(value) => Some(value@),
                        None => None,
                    },
                    empty,
                    latency_ms as int,
                    now@,
                );
                &&& final(self)@ == outcome.walk
                &&& final(state)@ == outcome.app
                &&& r@ == outcome.step
            }),
    {
        assert(self@.current() == self.order@[self.position as int]@);
        let verdict = state.response_received(
            self.order[self.position].as_str(),
            status,
            retry_after,
            empty,
        );
        match verdict {
            Verdict::Pass => {
                state.record_success_at(self.order[self.position].as_str(), latency_ms, now);
                self.phase = Phase::Done;
                Step::Stream
            },
            Verdict::Fail(error) => self.failed_at(state, error, now),
            Verdict::ReadBody => {
                self.phase = Phase::Reading { status };
                Step::ReadBody
            },
        }
    }

    /// Notes the body of a response that is known to be an error.
    pub fn body_read_at(&mut self, state: &mut AppState, body: String, now: Timestamp) -> (r: Step)
        requires
            old(self).wf(),
            old(self)@.phase is Reading,
            old(self)@.fits(old(state)@),
            old(state).wf(),
        ensures
            final(self).wf(),
            final(self)@.fits(final(state)@),
            final(state).wf(),
            final(state).settings() == old(state).settings(),
            final(self)@ == old(self)@.body_read(old(state)@, body@, now@).walk,
            final(state)@ == old(self)@.body_read(old(state)@, body@, now@).app,
            r@ == old(self)@.body_read(old(state)@, body@, now@).step,
    {
        assert(self@.current() == self.order@[self.position as int]@);
        let status: u16 = match self.phase {
            Phase::Reading { status } => status,
            _ => 0,
        };
        let error = match state.provider(self.order[self.position].as_str()) {
            Some(provider) => provider.error_response(status, body),
            None => ApiError::AllProvidersExhausted,
        };
        self.failed_at(state, error, now)
    }

    /// Notes that the request to the current provider got no response.
    pub fn request_failed_at(
        &mut self,
        state: &mut AppState,
        error: &reqwest::Error,
        now: Timestamp,
    ) -> (r: Step)
        requires
            old(self).wf(),
            old(self)@.phase == Phase::Sent,
            old(self)@.fits(old(state)@),
            old(state).wf(),
        ensures
            final(self).wf(),
            final(self)@.fits(final(state)@),
            final(state).wf(),
            final(state).settings() == old(state).settings(),
            ({
                let outcome = old(self)@.lost(
                    old(state)@,
                    transport::failure_timed_out(*error),
                    transport::failure_text(*error),
                    now@,
                );
                &&& final(self)@ == outcome.walk
                &&& final(state)@ == outcome.app
                &&& r@ == outcome.step
            }),
    {
        self.lost_at(state, transport::timed_out(error), transport::message(error), now)
    }

    /// Notes that the request to the current provider got no response, because
    /// it timed out or for the reason given.
    pub fn lost_at(
        &mut self,
        state: &mut AppState,
        timed_out: bool,
        msg: String,
        now: Timestamp,
    ) -> (r: Step)
        requires
            old(self).wf(),
            old(self)@.phase == Phase::Sent,
            old(self)@.fits(old(state)@),
            old(state).wf(),
        ensures
            final(self).wf(),
            final(self)@.fits(final(state)@),
            final(state).wf(),
            final(state).settings() == old(state).settings(),
            final(self)@ == old(self)@.lost(old(state)@, timed_out, msg@, now@).walk,
            final(state)@ == old(self)@.lost(old(state)@, timed_out, msg@, now@).app,
            r@ == old(self)@.lost(old(state)@, timed_out, msg@, now@).step,
    {
        assert(self@.current() == self.order@[self.position as int]@);
        let error = match state.provider(self.order[self.position].as_str()) {
            Some(provider) => provider.lost_request(timed_out, msg),
            None => ApiError::AllProvidersExhausted,
        };
        self.failed_at(state, error, now)
    }

    /// Tries the current provider again, with the key now in use.
    pub fn retry(&mut self, state: &AppState) -> (r: Step)
        requires
            old(self).wf(),
            old(self)@.phase == Phase::Waiting,
            old(self)@.fits(state@),
            state.wf(),
        ensures
            final(self).wf(),
            final(self)@.fits(state@),
            final(self)@ == old(self)@.tried_again(state@).walk,
            r@ == old(self)@.tried_again(state@).step,
    {
        assert(self@.current() == self.order@[self.position as int]@);
        self.phase = Phase::Sent;
        match state.provider(self.order[self.position].as_str()) {
            Some(provider) => Step::Send {
                provider: self.order[self.position].clone(),
                request: provider.request(self.path.as_str(), self.content_type.as_str()),
            },
            None => Step::Reply(proxy::error_reply(&ApiError::AllProvidersExhausted)),
        }
    }

    /// What the request is waiting for.
    pub fn phase(&self) -> (r: Phase)
        ensures
            r == self@.phase,
    {
        self.phase
    }
}

// ---------------------------------------------------------------------------
// Laws
// ---------------------------------------------------------------------------

/// The chain is walked in order: the provider chosen is eligible, and none
/// between the place the request had got to and the chosen one is.
pub proof fn first_eligible_is_first(
    app: AppModel,
    model: Option<Seq<char>>,
    order: Seq<Seq<char>>,
    from: int,
    now: int,
)
    requires
        0 <= from <= order.len(),
    ensures
        ({
            let at = first_eligible(app, model, order, from, now);
            &&& from <= at <= order.len()
            &&& at < order.len() ==> eligible(app, model, order[at], now)
            &&& forall|i: int| from <= i < at ==> !eligible(app, model, #[trigger] order[i], now)
        }),
    decreases order.len() - from,
{
    if from < order.len() && !eligible(app, model, order[from], now) {
        first_eligible_is_first(app, model, order, from + 1, now);
    }
}

/// A request is only ever sent on to a provider that is known, serves the
/// model, has a key or needs none, and whose breaker lets the request pass.
pub proof fn requests_go_to_eligible_providers(w: WalkModel, app: AppModel, now: int)
    requires
        w.consistent(),
    ensures
        w.choose_next(app, now).step matches StepModel::Send { provider, .. } ==> eligible(
            app,
            w.model,
            provider,
            now,
        ) && provider == w.order[w.choose_next(app, now).walk.position] && w.position
            <= w.choose_next(app, now).walk.position,
{
    first_eligible_is_first(app, w.model, w.order, w.position, now);
}

/// A provider whose breaker is open gets no request before the cooldown is over.
pub proof fn open_breaker_keeps_requests_away(
    app: AppModel,
    model: Option<Seq<char>>,
    name: Seq<char>,
    now: int,
)
    requires
        app.consistent(),
        app.providers.contains_key(name),
        app.providers[name].breaker.state == circuit_breaker::BreakerState::Open,
        !app.providers[name].breaker.cooled_down(now),
    ensures
        !eligible(app, model, name, now),
{
}

/// While a request is out to probe a provider, no other is sent to it on its
/// first attempt, unless the probe must have timed out.
pub proof fn probed_provider_is_passed_over(
    app: AppModel,
    model: Option<Seq<char>>,
    name: Seq<char>,
    now: int,
)
    requires
        app.consistent(),
        app.providers.contains_key(name),
        app.providers[name].breaker.probe_at matches Some(sent) && clock::whole_seconds(sent, now)
            < provider::REQUEST_TIMEOUT_SECS,
    ensures
        !eligible(app, model, name, now),
{
}

/// Providers that are passed over do not notice: only the breaker of the one
/// that the request is sent to is asked, and a probe is out only where a
/// request was sent.
pub proof fn only_the_chosen_one_is_asked(w: WalkModel, app: AppModel, name: Seq<char>, now: int)
    requires
        w.consistent(),
    ensures
        ({
            let outcome = w.choose_next(app, now);
            &&& !(outcome.step is Send) ==> outcome.app == app
            &&& outcome.step matches StepModel::Send { provider, .. } ==> (if name == provider {
                outcome.app.providers[name] == app.providers[name].asked(now)
            } else {
                outcome.app.providers[name] == app.providers[name]
            })
        }),
{
}

/// As long as there is an eligible provider further along the chain, the
/// request is sent on and not answered with an error.
pub proof fn falls_through_to_an_eligible_provider(w: WalkModel, app: AppModel, i: int, now: int)
    requires
        w.consistent(),
        w.position <= i < w.order.len(),
        eligible(app, w.model, w.order[i], now),
    ensures
        w.choose_next(app, now).step is Send,
        w.choose_next(app, now).walk.position <= i,
{
    first_eligible_is_first(app, w.model, w.order, w.position, now);
}

/// Where no provider is left, the client is answered with status 503, and the
/// body tells of the last error, if a provider was tried at all.
pub proof fn exhausted_chain_answers(w: WalkModel, app: AppModel, now: int)
    requires
        w.consistent(),
        forall|i: int|
            w.position <= i < w.order.len() ==> !eligible(app, w.model, #[trigger] w.order[i], now),
    ensures
        w.choose_next(app, now).walk.phase == Phase::Done,
        w.choose_next(app, now).step matches StepModel::Reply(reply) && reply.status == 503 && (
        w.last_error matches Some(e) ==> reply.fields == proxy::report_on(e)) && (
        w.last_error is None ==> reply.fields == proxy::report_on(
            ApiErrorModel::AllProvidersExhausted,
        )),
{
    first_eligible_is_first(app, w.model, w.order, w.position, now);
}

/// A dead key is never retried with the same provider: the request goes on
/// along the chain.
pub proof fn dead_key_moves_on(w: WalkModel, app: AppModel, e: ApiErrorModel, now: int)
    requires
        w.consistent(),
        w.with_provider(),
        e is Auth,
    ensures
        !(w.failed(app, e, now).step is Wait),
        w.failed(app, e, now).walk.position > w.position,
{
    first_eligible_is_first(
        app.failed(w.current(), e, now),
        w.model,
        w.order,
        w.position + 1,
        now,
    );
}

/// A retriable error is retried until its retries are used up, and the pause
/// is exactly the one that the provider asked for, where it asked for one.
pub proof fn retriable_errors_are_retried(w: WalkModel, app: AppModel, e: ApiErrorModel, now: int)
    requires
        w.consistent(),
        w.with_provider(),
        e.retriable(),
    ensures
        w.failed(app, e, now).step is Wait <==> w.retries_left(e) > 0,
        w.retries_left(e) > 0 ==> w.failed(app, e, now).walk.position == w.position,
        w.retries_left(e) > 0 ==> w.failed(app, e, now).walk.retries_left(e) == w.retries_left(e)
            - 1,
        w.retries_left(e) > 0 ==> (e matches ApiErrorModel::RateLimited {
            retry_after_secs: Some(secs),
            ..
        } ==> w.failed(app, e, now).step == (StepModel::Wait {
            millis: secs * 1000,
        })),
{
}

/// An empty response is retried twice with the same provider, whatever the
/// limit for other errors, and the third moves the request on along the chain.
pub proof fn empty_responses_are_retried_twice(
    w: WalkModel,
    apps: Seq<AppModel>,
    retry_after: Option<Seq<char>>,
    latency_ms: int,
    now: int,
)
    requires
        w.consistent(),
        w.phase == Phase::Sent,
        w.attempt == 0,
        apps.len() == 3,
        forall|i: int|
            0 <= i < 3 ==> (#[trigger] apps[i]).consistent() && apps[i].providers.contains_key(
                w.current(),
            ),
    ensures
        ({
            let first = w.responded(apps[0], 200, retry_after, true, latency_ms, now);
            let again = first.walk.tried_again(apps[1]).walk;
            let second = again.responded(apps[1], 200, retry_after, true, latency_ms, now);
            let last = second.walk.tried_again(apps[2]).walk;
            let third = last.responded(apps[2], 200, retry_after, true, latency_ms, now);
            &&& first.step is Wait
            &&& second.step is Wait
            &&& !(third.step is Wait)
            &&& third.walk.position > w.position
            &&& third.walk.last_error == Some(
                ApiErrorModel::EmptyResponse { provider: w.current() },
            )
        }),
{
    let e = ApiErrorModel::EmptyResponse { provider: w.current() };
    assert(apps[0].consistent() && apps[1].consistent() && apps[2].consistent());
    let first = w.responded(apps[0], 200, retry_after, true, latency_ms, now);
    let again = first.walk.tried_again(apps[1]).walk;
    let second = again.responded(apps[1], 200, retry_after, true, latency_ms, now);
    let last = second.walk.tried_again(apps[2]).walk;
    first_eligible_is_first(
        apps[2].responded(w.current(), 200).failed(w.current(), e, now),
        w.model,
        w.order,
        w.position + 1,
        now,
    );
}

/// Without a wish of the provider, each pause is twice the one before, as long
/// as it stays in range.
pub proof fn pauses_double(e: ApiErrorModel, initial_ms: int, attempt: nat)
    requires
        0 <= initial_ms,
        !(e matches ApiErrorModel::RateLimited { retry_after_secs: Some(secs), .. }),
        initial_ms * power2::pow2(attempt + 1) <= u64::MAX,
    ensures
        backoff(e, initial_ms, 0) == initial_ms,
        backoff(e, initial_ms, attempt + 1) == 2 * backoff(e, initial_ms, attempt),
{
    power2::lemma2_to64();
    power2::lemma_pow2_unfold(attempt + 1);
    power2::lemma_pow2_pos(attempt);
    assert(initial_ms * power2::pow2(attempt + 1) == 2 * (initial_ms * power2::pow2(attempt))
        && initial_ms <= initial_ms * power2::pow2(attempt)) by (nonlinear_arith)
        requires
            0 <= initial_ms,
            power2::pow2(attempt) >= 1,
            power2::pow2(attempt + 1) == 2 * power2::pow2(attempt),
    ;
}

/// How many requests may be sent to one provider, at most.
pub open spec fn attempts(w: WalkModel) -> int {
    1 + w.max_retries + EMPTY_RESPONSE_MAX_RETRIES
}

/// How many requests may still be sent, at most, counting the one under way.
pub open spec fn effort(w: WalkModel) -> int {
    if w.phase == Phase::Done {
        0
    } else {
        (w.order.len() - w.position) * attempts(w) - w.attempt
    }
}

/// Every failure brings the request nearer to its end.
pub proof fn failures_use_up_effort(w: WalkModel, app: AppModel, e: ApiErrorModel, now: int)
    requires
        w.consistent(),
        w.with_provider(),
    ensures
        0 < effort(w),
        0 <= effort(w.failed(app, e, now).walk) < effort(w),
        w.failed(app, e, now).walk.consistent(),
        w.failed(app, e, now).walk.phase == Phase::Done || w.failed(app, e, now).walk.with_provider(),
        w.failed(app, e, now).walk.order == w.order,
        w.failed(app, e, now).walk.max_retries == w.max_retries,
{
    let n = w.order.len() - w.position;
    let k = attempts(w);
    assert(n * k >= k) by (nonlinear_arith)
        requires
            n >= 1,
            k >= 1,
    ;
    first_eligible_is_first(
        app.failed(w.current(), e, now),
        w.model,
        w.order,
        w.position + 1,
        now,
    );
    let after = w.failed(app, e, now).walk;
    if !w.retries(e) {
        let m = w.order.len() - after.position;
        assert(m * k <= n * k - k && 0 <= m * k) by (nonlinear_arith)
            requires
                0 <= m <= n - 1,
                k >= 1,
        ;
        assert(m >= 1 ==> m * k >= k) by (nonlinear_arith)
            requires
                k >= 1,
        ;
    }
}

/// The progress of a request after failures, each noted in whatever state the
/// gateway is in by then, with a retry in between where one is due.
pub open spec fn after_failures(
    w: WalkModel,
    failures: Seq<(AppModel, ApiErrorModel, int)>,
) -> WalkModel
    decreases failures.len(),
{
    if failures.len() == 0 {
        w
    } else {
        let before = after_failures(w, failures.drop_last());
        let (app, e, now) = failures.last();
        if before.with_provider() {
            (WalkModel { phase: Phase::Sent, ..before }).failed(app, e, now).walk
        } else {
            before
        }
    }
}

/// Every request ends: after as many failures as there are providers, each
/// with its retries, the client has its answer.
pub proof fn every_request_ends(w: WalkModel, failures: Seq<(AppModel, ApiErrorModel, int)>)
    requires
        w.consistent(),
        w.with_provider(),
        failures.len() >= w.order.len() * attempts(w),
    ensures
        after_failures(w, failures).phase == Phase::Done,
{
    lemma_effort_after(w, failures);
    let n = w.order.len() - w.position;
    let k = attempts(w);
    assert(n * k <= w.order.len() * k) by (nonlinear_arith)
        requires
            n <= w.order.len(),
            k >= 1,
    ;
    let after = after_failures(w, failures);
    if after.phase != Phase::Done {
        failures_use_up_effort(
            WalkModel { phase: Phase::Sent, ..after },
            arbitrary(),
            ApiErrorModel::AllProvidersExhausted,
            0,
        );
    }
}

proof fn lemma_effort_after(w: WalkModel, failures: Seq<(AppModel, ApiErrorModel, int)>)
    requires
        w.consistent(),
        w.with_provider(),
    ensures
        ({
            let after = after_failures(w, failures);
            &&& after.consistent()
            &&& after.phase == Phase::Done || after.with_provider()
            &&& after.phase == Phase::Done || effort(after) <= effort(w) - failures.len()
        }),
    decreases failures.len(),
{
    if failures.len() > 0 {
        lemma_effort_after(w, failures.drop_last());
        let before = after_failures(w, failures.drop_last());
        let (app, e, now) = failures.last();
        if before.with_provider() {
            failures_use_up_effort(WalkModel { phase: Phase::Sent, ..before }, app, e, now);
        }
    }
}

/// A walk never adds or removes a provider, and of the providers that it is not
/// with, it asks at most the breaker of the one that it goes on to.
pub proof fn others_are_only_asked(
    w: WalkModel,
    app: AppModel,
    e: ApiErrorModel,
    name: Seq<char>,
    now: int,
)
    requires
        w.consistent(),
        w.with_provider(),
        w.fits(app),
    ensures
        ({
            let after = w.failed(app, e, now).app;
            &&& after.providers.contains_key(name) == app.providers.contains_key(name)
            &&& app.providers.contains_key(name) && name != w.current() ==> after.providers[name]
                == app.providers[name] || (after.providers[name] == app.providers[name].asked(now)
                && w.failed(app, e, now).walk.current() == name)
        }),
{
    first_eligible_is_first(
        app.failed(w.current(), e, now),
        w.model,
        w.order,
        w.position + 1,
        now,
    );
}

/// A response that passes reaches the client, and counts as a success of the
/// provider and of no other.
pub proof fn passing_response_reaches_the_client(
    w: WalkModel,
    app: AppModel,
    status: u16,
    retry_after: Option<Seq<char>>,
    empty: bool,
    latency_ms: int,
    now: int,
)
    requires
        w.consistent(),
        w.phase == Phase::Sent,
        w.fits(app),
        status < 500,
        status != 401,
        status != 403,
        status != 429,
        !(status == 200 && empty),
    ensures
        ({
            let outcome = w.responded(app, status, retry_after, empty, latency_ms, now);
            &&& outcome.step is Stream
            &&& outcome.walk.phase == Phase::Done
            &&& outcome.app.providers == app.providers.insert(
                w.current(),
                app.providers[w.current()].succeeded(latency_ms, now),
            )
        }),
{
    let outcome = w.responded(app, status, retry_after, empty, latency_ms, now);
    assert(outcome.app.providers =~= app.providers.insert(
        w.current(),
        app.providers[w.current()].succeeded(latency_ms, now),
    ));
}

/// A request starts at the head of the chain with what the client sent and
/// what the settings say.
pub proof fn requests_start_at_the_head(
    config: Config,
    path: Seq<char>,
    content_type: Seq<char>,
    model: Option<Seq<char>>,
)
    ensures
        ({
            let w = WalkModel::start(config, path, Some(content_type), model);
            &&& w.model == model
            &&& w.path == path
            &&& w.content_type == content_type
            &&& w.order == text::texts(config.chain.order@)
            &&& w.max_retries == config.rate_limit.max_retries
            &&& w.initial_backoff_ms == config.rate_limit.initial_backoff_ms
            &&& w.position == 0 && w.attempt == 0 && w.empties == 0
            &&& w.phase == Phase::Choosing
            &&& w.last_error is None
            &&& WalkModel::start(config, path, None, model) == (WalkModel {
                content_type: "application/json"@,
                ..w
            })
        }),
{
}

/// Who may get a request: a provider that is known, that serves the model
/// where one was named, that has a key or needs none, and that is available.
pub proof fn who_may_get_a_request(app: AppModel, model: Seq<char>, name: Seq<char>, now: int)
    ensures
        eligible(app, Some(model), name, now) <==> app.providers.contains_key(name)
            && app.providers[name].serves(model) && app.providers[name].has_key()
            && app.providers[name].available(now),
        eligible(app, None, name, now) <==> app.providers.contains_key(name)
            && app.providers[name].has_key() && app.providers[name].available(now),
{
}

/// Whether two walks are about the same request under the same settings.
pub open spec fn same_request(a: WalkModel, b: WalkModel) -> bool {
    &&& a.model == b.model
    &&& a.path == b.path
    &&& a.content_type == b.content_type
    &&& a.order == b.order
    &&& a.max_retries == b.max_retries
    &&& a.initial_backoff_ms == b.initial_backoff_ms
}

/// Whatever happens, a walk goes on with the same request: the same model,
/// path and content type, along the same chain.
pub proof fn walks_keep_their_request(
    w: WalkModel,
    app: AppModel,
    e: ApiErrorModel,
    status: u16,
    text: Option<Seq<char>>,
    flag: bool,
    latency_ms: int,
    now: int,
)
    ensures
        w.choose_next(app, now).walk.path == w.path,
        w.choose_next(app, now).walk.content_type == w.content_type,
        w.choose_next(app, now).walk.model == w.model,
        w.choose_next(app, now).walk.last_error == w.last_error,
        same_request(w.choose_next(app, now).walk, w),
        same_request(w.failed(app, e, now).walk, w),
        same_request(w.responded(app, status, text, flag, latency_ms, now).walk, w),
        text is Some ==> same_request(w.body_read(app, text->0, now).walk, w) && same_request(
            w.lost(app, flag, text->0, now).walk,
            w,
        ),
        same_request(w.tried_again(app).walk, w),
{
}

/// The provider that is chosen gets the request at the path below its address,
/// with the client's content type and the key in use; the count of retries
/// starts over.
pub proof fn chosen_provider_gets_the_request(w: WalkModel, app: AppModel, now: int)
    requires
        w.consistent(),
        app.consistent(),
        w.choose_next(app, now).step is Send,
    ensures
        ({
            let outcome = w.choose_next(app, now);
            let at = outcome.walk.position;
            let p = app.providers[w.order[at]];
            &&& w.position <= at < w.order.len()
            &&& outcome.walk.phase == Phase::Sent
            &&& outcome.walk.attempt == 0 && outcome.walk.empties == 0
            &&& outcome.step matches StepModel::Send { provider, request } && provider == w.order[at]
                && request.url == p.base_url + w.path && request.content_type == w.content_type && (
            p.keys.keys.len() > 0 ==> request.bearer == Some(p.keys.keys[p.keys.current])) && (
            p.keys.keys.len() == 0 ==> request.bearer is None)
            &&& outcome.app.providers[w.order[at]] == p.asked(now)
            &&& outcome.app.providers.dom() == app.providers.dom()
            &&& outcome.app.order == app.order && outcome.app.max_retries == app.max_retries
                && outcome.app.initial_backoff_ms == app.initial_backoff_ms
        }),
{
    first_eligible_is_first(app, w.model, w.order, w.position, now);
    let at = w.choose_next(app, now).walk.position;
    provider::requests_in_full(app.providers[w.order[at]], w.path, w.content_type);
    assert(w.choose_next(app, now).app.providers.dom() =~= app.providers.dom());
}

/// A choice either sends the request or answers the client, and it answers
/// only where nobody is left.
pub proof fn choices_send_or_answer(w: WalkModel, app: AppModel, now: int)
    requires
        w.consistent(),
    ensures
        w.choose_next(app, now).step is Send || w.choose_next(app, now).step is Reply,
        w.choose_next(app, now).step is Reply ==> w.choose_next(app, now).walk.phase == Phase::Done
            && (forall|i: int|
            w.position <= i < w.order.len() ==> !eligible(app, w.model, #[trigger] w.order[i], now)),
{
    first_eligible_is_first(app, w.model, w.order, w.position, now);
}

/// A retry repeats the request: to the same provider, at the path below its
/// address, with the same content type and with the provider's key in use. It
/// changes neither the state nor anything else of the walk.
pub proof fn retries_repeat_the_request(w: WalkModel, app: AppModel)
    requires
        w.consistent(),
        w.phase == Phase::Waiting,
        w.fits(app),
        app.consistent(),
    ensures
        ({
            let outcome = w.tried_again(app);
            let p = app.providers[w.order[w.position]];
            &&& outcome.step matches StepModel::Send { provider, request } && provider
                == w.order[w.position] && request.url == p.base_url + w.path && request.content_type
                == w.content_type && (p.keys.keys.len() > 0 ==> request.bearer == Some(
                p.keys.keys[p.keys.current],
            )) && (p.keys.keys.len() == 0 ==> request.bearer is None)
            &&& outcome.app == app
            &&& outcome.walk.phase == Phase::Sent
            &&& outcome.walk.position == w.position
            &&& outcome.walk.attempt == w.attempt && outcome.walk.empties == w.empties
            &&& outcome.walk.last_error == w.last_error
        }),
{
    provider::requests_in_full(app.providers[w.order[w.position]], w.path, w.content_type);
}

/// The second attempt is the first one over again: where the provider still has
/// the same address and the same key in use after the pause, the very same
/// request is sent to it.
pub proof fn second_attempt_equals_the_first(
    w: WalkModel,
    app: AppModel,
    e: ApiErrorModel,
    later: AppModel,
    now: int,
    failed_at: int,
)
    requires
        w.consistent(),
        app.consistent(),
        later.consistent(),
        w.choose_next(app, now).step is Send,
        ({
            let first = w.choose_next(app, now);
            let name = w.order[first.walk.position];
            &&& first.walk.failed(first.app, e, failed_at).step is Wait
            &&& later.providers.contains_key(name)
            &&& later.providers[name].base_url == app.providers[name].base_url
            &&& later.providers[name].keys == app.providers[name].keys
        }),
    ensures
        ({
            let first = w.choose_next(app, now);
            first.walk.failed(first.app, e, failed_at).walk.tried_again(later).step == first.step
        }),
{
    first_eligible_is_first(app, w.model, w.order, w.position, now);
    let first = w.choose_next(app, now);
    let name = w.order[first.walk.position];
    chosen_provider_gets_the_request(w, app, now);
    provider::requests_in_full(app.providers[name], w.path, w.content_type);
    provider::requests_in_full(later.providers[name], w.path, w.content_type);
    assert(first.walk.failed(first.app, e, failed_at).walk.current() == name);
}

/// Which errors are retried: empty responses twice, whatever the limit; rate
/// limits, timeouts, network errors and server errors of status 500 or more as
/// often as the settings allow, not counting the retries for empty responses.
pub proof fn which_errors_are_retried(w: WalkModel, app: AppModel, e: ApiErrorModel, now: int)
    requires
        w.consistent(),
        w.with_provider(),
    ensures
        e is EmptyResponse ==> (w.failed(app, e, now).step is Wait <==> w.empties < 2),
        e is RateLimited || e is Timeout || e is NetworkError || (
        e matches ApiErrorModel::ServerError { status, .. } && status >= 500) ==> (w.failed(
            app,
            e,
            now,
        ).step is Wait <==> w.attempt - w.empties < w.max_retries),
        e is Auth || e is AllProvidersExhausted || (e matches ApiErrorModel::ServerError {
            status,
            ..
        } && status < 500) ==> !(w.failed(app, e, now).step is Wait),
{
    first_eligible_is_first(
        app.failed(w.current(), e, now),
        w.model,
        w.order,
        w.position + 1,
        now,
    );
}

/// A pause notes the failure with the current provider, counts the retry, and
/// keeps the place. It lasts as long as the provider asked for, else the
/// initial pause doubled once for each retry before, up to the end of its range.
pub proof fn pauses_in_full(w: WalkModel, app: AppModel, e: ApiErrorModel, now: int)
    requires
        w.consistent(),
        w.with_provider(),
        w.failed(app, e, now).step is Wait,
    ensures
        ({
            let outcome = w.failed(app, e, now);
            let doubled = w.initial_backoff_ms * power2::pow2(w.attempt as nat);
            &&& outcome.app == app.failed(w.order[w.position], e, now)
            &&& outcome.walk.phase == Phase::Waiting
            &&& outcome.walk.position == w.position
            &&& outcome.walk.attempt == w.attempt + 1
            &&& e is EmptyResponse ==> outcome.walk.empties == w.empties + 1
            &&& !(e is EmptyResponse) ==> outcome.walk.empties == w.empties
            &&& outcome.walk.last_error == w.last_error
            &&& (e matches ApiErrorModel::RateLimited { retry_after_secs: Some(secs), .. }
                ==> outcome.step == (StepModel::Wait { millis: secs * 1000 }))
            &&& !(e matches ApiErrorModel::RateLimited { retry_after_secs: Some(secs), .. })
                && doubled <= 0xffff_ffff_ffff_ffff ==> outcome.step == (StepModel::Wait {
                millis: doubled,
            })
            &&& !(e matches ApiErrorModel::RateLimited { retry_after_secs: Some(secs), .. })
                && doubled > 0xffff_ffff_ffff_ffff ==> outcome.step == (StepModel::Wait {
                millis: 0xffff_ffff_ffff_ffff,
            })
        }),
{
    first_eligible_is_first(
        app.failed(w.current(), e, now),
        w.model,
        w.order,
        w.position + 1,
        now,
    );
}

/// An error that is not retried is noted with the provider and kept as the
/// last one, and the request goes on from the next place in the chain.
pub proof fn errors_move_the_request_on(w: WalkModel, app: AppModel, e: ApiErrorModel, now: int)
    requires
        w.consistent(),
        w.with_provider(),
        !(w.failed(app, e, now).step is Wait),
    ensures
        ({
            let outcome = w.failed(app, e, now);
            let on = WalkModel {
                position: w.position + 1,
                attempt: 0,
                empties: 0,
                phase: Phase::Choosing,
                last_error: Some(e),
                ..w
            };
            let next = on.choose_next(app.failed(w.order[w.position], e, now), now);
            &&& outcome.app == next.app
            &&& outcome.walk == next.walk
            &&& outcome.step == next.step
            &&& outcome.walk.last_error == Some(e)
            &&& outcome.walk.position > w.position
        }),
{
    first_eligible_is_first(
        app.failed(w.current(), e, now),
        w.model,
        w.order,
        w.position + 1,
        now,
    );
}

/// What a response leads to, by its status. A 429 is a rate limit of the
/// provider, and an empty 200 an empty response. Of 401, 403, and 500 or more
/// the body is read first, and the first two refuse the key at once.
pub proof fn responses_by_status(
    w: WalkModel,
    app: AppModel,
    status: u16,
    retry_after: Option<Seq<char>>,
    empty: bool,
    latency_ms: int,
    now: int,
)
    requires
        w.consistent(),
        w.phase == Phase::Sent,
        w.fits(app),
        app.consistent(),
    ensures
        ({
            let outcome = w.responded(app, status, retry_after, empty, latency_ms, now);
            let name = w.order[w.position];
            &&& status == 429 && retry_after is None ==> outcome == w.failed(
                app,
                ApiErrorModel::RateLimited { provider: name, retry_after_secs: None },
                now,
            )
            &&& (status == 429 && retry_after is Some) ==> outcome == w.failed(
                app,
                ApiErrorModel::RateLimited {
                    provider: name,
                    retry_after_secs: text::spelled_number(retry_after->0),
                },
                now,
            )
            &&& status == 200 && empty ==> outcome == w.failed(
                app,
                ApiErrorModel::EmptyResponse { provider: name },
                now,
            )
            &&& status == 401 || status == 403 || status >= 500 ==> outcome.step is ReadBody
                && outcome.walk == (WalkModel { phase: Phase::Reading { status }, ..w })
            &&& status == 401 || status == 403 ==> outcome.app == app.with(
                name,
                ProviderModel { keys: app.providers[name].keys.refused(), ..app.providers[name] },
            )
            &&& status >= 500 ==> outcome.app.providers == app.providers
        }),
{
    let name = w.order[w.position];
    assert(app.providers[name].name == name);
    if status != 401 && status != 403 {
        assert(app.responded(name, status).providers =~= app.providers);
        assert(app.responded(name, status) == app);
    }
}

/// The body of a 401 or 403 makes a dead key of the response, and that of a
/// status of 500 or more a server error, in the name of the current provider.
pub proof fn bodies_by_status(w: WalkModel, app: AppModel, body: Seq<char>, now: int)
    requires
        w.consistent(),
        w.phase is Reading,
        w.fits(app),
        app.consistent(),
    ensures
        ({
            let status = w.phase->status;
            let name = w.order[w.position];
            &&& status == 401 || status == 403 ==> w.body_read(app, body, now) == w.failed(
                app,
                ApiErrorModel::Auth { provider: name, status, body },
                now,
            )
            &&& status >= 500 ==> w.body_read(app, body, now) == w.failed(
                app,
                ApiErrorModel::ServerError { provider: name, status, body },
                now,
            )
            &&& status == 401 || status == 403 || status >= 500
        }),
{
    assert(app.providers[w.order[w.position]].name == w.order[w.position]);
}

/// A server error is retried with the same provider while there are retries
/// left; a dead key never is.
pub proof fn server_errors_are_retried(w: WalkModel, app: AppModel, body: Seq<char>, now: int)
    requires
        w.consistent(),
        w.phase is Reading,
        w.fits(app),
        app.consistent(),
    ensures
        w.phase->status >= 500 && w.attempt - w.empties < w.max_retries ==> w.body_read(
            app,
            body,
            now,
        ).step is Wait && w.body_read(app, body, now).walk.position == w.position,
        w.phase->status < 500 ==> !(w.body_read(app, body, now).step is Wait) && w.body_read(
            app,
            body,
            now,
        ).walk.position > w.position,
{
    bodies_by_status(w, app, body, now);
    let name = w.order[w.position];
    let status = w.phase->status;
    if status >= 500 {
        which_errors_are_retried(
            w,
            app,
            ApiErrorModel::ServerError { provider: name, status, body },
            now,
        );
    } else {
        dead_key_moves_on(w, app, ApiErrorModel::Auth { provider: name, status, body }, now);
    }
}

/// A request without a response is a timeout or a network error of the current provider.
pub proof fn lost_requests_by_cause(w: WalkModel, app: AppModel, msg: Seq<char>, now: int)
    requires
        w.consistent(),
        w.phase == Phase::Sent,
        w.fits(app),
        app.consistent(),
    ensures
        w.lost(app, true, msg, now) == w.failed(
            app,
            ApiErrorModel::Timeout { provider: w.order[w.position], secs: 300 },
            now,
        ),
        w.lost(app, false, msg, now) == w.failed(
            app,
            ApiErrorModel::NetworkError { provider: w.order[w.position], msg },
            now,
        ),
{
    assert(app.providers[w.order[w.position]].name == w.order[w.position]);
}

/// A step holds what its model says.
pub proof fn models_of_steps(s: Step)
    ensures
        s matches Step::Send { provider, request } ==> s@ == (StepModel::Send {
            provider: provider@,
            request: request@,
        }),
        s is ReadBody ==> s@ is ReadBody,
        s matches Step::Wait { millis } ==> s@ == (StepModel::Wait { millis: millis as int }),
        s is Stream ==> s@ is Stream,
        s matches Step::Reply(reply) ==> s@ == StepModel::Reply(reply@),
{
}

/// How long a pause is: what the provider asked for, whatever the attempt; else
/// the initial pause doubled once for each attempt before, cut off at the end
/// of the 64-bit range.
pub proof fn lengths_of_pauses(
    provider: Seq<char>,
    secs: u64,
    e: ApiErrorModel,
    initial_ms: int,
    attempt: nat,
)
    ensures
        backoff(
            ApiErrorModel::RateLimited { provider, retry_after_secs: Some(secs) },
            initial_ms,
            attempt,
        ) == secs * 1000,
        !(e matches ApiErrorModel::RateLimited { retry_after_secs: Some(wait), .. }) ==> {
            let doubled = initial_ms * power2::pow2(attempt);
            &&& doubled <= 0xffff_ffff_ffff_ffff ==> backoff(e, initial_ms, attempt) == doubled
            &&& doubled > 0xffff_ffff_ffff_ffff ==> backoff(e, initial_ms, attempt)
                == 0xffff_ffff_ffff_ffff
        },
{
}

} // verus!
