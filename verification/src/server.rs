//! The state that all requests share: the settings and the providers.

use crate::circuit_breaker::{BreakerModel, CircuitBreaker};
use crate::clock::Timestamp;
use crate::config::{self, CircuitBreakerConfig, Config, ProviderConfigModel};
use crate::error::{ApiError, ApiErrorModel};
use crate::metrics::{HealthModel, HealthSnapshot};
use crate::provider::{Provider, ProviderModel, Verdict, VerdictModel};
use crate::text;
use dashmap::DashMap;
use vstd::prelude::*;

verus! {

// ---------------------------------------------------------------------------
// The directory of providers
// ---------------------------------------------------------------------------

/// The concurrent map of dashmap.
#[verifier::external_type_specification]
#[verifier::external_body]
#[verifier::reject_recursive_types(K)]
#[verifier::reject_recursive_types(V)]
#[verifier::reject_recursive_types(S)]
pub struct ExDashMap<K, V, S>(DashMap<K, V, S>);

/// What a directory holds: a slot for each name.
pub uninterp spec fn directory_contents(directory: DashMap<String, usize>) -> Map<Seq<char>, usize>;

/// A directory without entries.
pub open spec fn no_entries() -> Map<Seq<char>, usize> {
    Map::empty()
}

/// The slot under a name, if there is one.
pub open spec fn entry_in(entries: Map<Seq<char>, usize>, name: Seq<char>) -> Option<usize> {
    if entries.contains_key(name) {
        Some(entries[name])
    } else {
        None
    }
}

/// Calls `DashMap::new`: the map is empty.
#[verifier::external_body]
fn directory_new() -> (r: DashMap<String, usize>)
    ensures
        directory_contents(r) == no_entries(),
{
    DashMap::new()
}

/// Calls `DashMap::insert`: the slot is put under the name, in place of the one
/// that was there, and that one is returned.
#[verifier::external_body]
fn directory_insert(directory: &mut DashMap<String, usize>, name: String, slot: usize) -> (r: Option<
    usize,
>)
    ensures
        directory_contents(*final(directory)) == directory_contents(*old(directory)).insert(
            name@,
            slot,
        ),
        r == entry_in(directory_contents(*old(directory)), name@),
{
    directory.insert(name, slot)
}

/// Calls `DashMap::get`: the slot under the name, if there is one.
#[verifier::external_body]
fn directory_get(directory: &DashMap<String, usize>, name: &str) -> (r: Option<usize>)
    ensures
        r == entry_in(directory_contents(*directory), name@),
{
    directory.get(name).map(|slot| *slot)
}

// ---------------------------------------------------------------------------
// The shared state
// ---------------------------------------------------------------------------

/// What the shared state is, as a mathematical value.
pub struct AppModel {
    /// The order in which providers are tried.
    pub order: Seq<Seq<char>>,
    pub max_retries: u32,
    pub initial_backoff_ms: u64,
    pub providers: Map<Seq<char>, ProviderModel>,
}

/// A fresh breaker with the given settings.
pub open spec fn fresh_breaker(settings: CircuitBreakerConfig) -> BreakerModel {
    BreakerModel::fresh(
        settings.failure_threshold as int,
        settings.cooldown_secs as int,
        settings.success_threshold as int,
    )
}

/// A fresh provider for each entry of the settings, each with its own breaker.
pub open spec fn fresh_providers(
    entries: Seq<(Seq<char>, ProviderConfigModel)>,
    breaker: CircuitBreakerConfig,
) -> Map<Seq<char>, ProviderModel> {
    Map::new(
        |name: Seq<char>| config::has_name(entries, name),
        |name: Seq<char>|
            ProviderModel::fresh(name, config::settings_of(entries, name), fresh_breaker(breaker)),
    )
}

impl AppModel {
    /// The state that a gateway starts with.
    pub open spec fn start(config: Config) -> AppModel {
        AppModel {
            order: text::texts(config.chain.order@),
            max_retries: config.rate_limit.max_retries,
            initial_backoff_ms: config.rate_limit.initial_backoff_ms,
            providers: fresh_providers(config.providers@, config.circuit_breaker),
        }
    }

    /// Every provider is consistent and goes by the name it is found under.
    pub open spec fn consistent(self) -> bool {
        forall|name: Seq<char>| #[trigger]
            self.providers.contains_key(name) ==> self.providers[name].name == name
                && self.providers[name].consistent()
    }

    /// The state with one provider changed.
    pub open spec fn with(self, name: Seq<char>, p: ProviderModel) -> AppModel {
        AppModel { providers: self.providers.insert(name, p), ..self }
    }

    /// The state after a success of a provider. Events of a provider that is
    /// not known change nothing.
    pub open spec fn succeeded(self, name: Seq<char>, latency_ms: int, now: int) -> AppModel {
        if self.providers.contains_key(name) {
            self.with(name, self.providers[name].succeeded(latency_ms, now))
        } else {
            self
        }
    }

    /// The state after a failure of a provider.
    pub open spec fn failed(self, name: Seq<char>, e: ApiErrorModel, now: int) -> AppModel {
        if self.providers.contains_key(name) {
            self.with(name, self.providers[name].failed(e, now))
        } else {
            self
        }
    }

    /// The state after a response of a provider.
    pub open spec fn responded(self, name: Seq<char>, status: u16) -> AppModel {
        if self.providers.contains_key(name) {
            self.with(name, self.providers[name].responded(status))
        } else {
            self
        }
    }

    /// What to do with a response of a provider.
    pub open spec fn verdict(
        self,
        name: Seq<char>,
        status: u16,
        retry_after: Option<Seq<char>>,
        empty: bool,
    ) -> VerdictModel {
        if self.providers.contains_key(name) {
            self.providers[name].verdict(status, retry_after, empty)
        } else {
            VerdictModel::Pass
        }
    }

    /// What is reported of the health of the providers, in chain order. Names
    /// without a provider are passed over.
    pub open spec fn health(self, order: Seq<Seq<char>>) -> Seq<HealthModel>
        decreases order.len(),
    {
        if order.len() == 0 {
            Seq::empty()
        } else {
            let before = self.health(order.drop_last());
            if self.providers.contains_key(order.last()) {
                before.push(self.providers[order.last()].health())
            } else {
                before
            }
        }
    }
}

/// All requests that some health reports count.
pub open spec fn requests_in(reports: Seq<HealthModel>) -> int
    decreases reports.len(),
{
    if reports.len() == 0 {
        0
    } else {
        requests_in(reports.drop_last()) + reports.last().metrics.total_requests
    }
}

/// All failures that some health reports count.
pub open spec fn errors_in(reports: Seq<HealthModel>) -> int
    decreases reports.len(),
{
    if reports.len() == 0 {
        0
    } else {
        errors_in(reports.drop_last()) + reports.last().metrics.failed_requests
    }
}

/// `n`, or the largest 64-bit number where `n` is larger.
pub open spec fn capped(n: int) -> int {
    if n <= u64::MAX {
        n
    } else {
        u64::MAX as int
    }
}

/// The health of the gateway.
#[derive(Debug)]
pub struct HealthReport {
    pub providers: Vec<HealthSnapshot>,
    pub total_requests: u64,
    pub total_errors: u64,
    pub chain_order: Vec<String>,
}

/// The mathematical values of a list of health reports.
pub open spec fn report_models(reports: Seq<HealthSnapshot>) -> Seq<HealthModel> {
    Seq::new(reports.len(), |i: int| reports[i]@)
}

/// The settings and the providers, shared by all requests.
pub struct AppState {
    config: Config,
    /// The slot of each provider.
    directory: DashMap<String, usize>,
    providers: Vec<Provider>,
}

impl View for AppState {
    type V = AppModel;

    closed spec fn view(&self) -> AppModel {
        AppModel {
            order: text::texts(self.config.chain.order@),
            max_retries: self.config.rate_limit.max_retries,
            initial_backoff_ms: self.config.rate_limit.initial_backoff_ms,
            providers: Map::new(
                |name: Seq<char>| directory_contents(self.directory).contains_key(name),
                |name: Seq<char>| self.providers@[directory_contents(self.directory)[name] as int]@,
            ),
        }
    }
}

impl AppState {
    /// Every slot in the directory is that of a provider.
    pub closed spec fn slots_match(&self) -> bool {
        forall|name: Seq<char>| #[trigger]
            directory_contents(self.directory).contains_key(name)
                ==> directory_contents(self.directory)[name] < self.providers@.len()
    }

    pub open spec fn wf(&self) -> bool {
        &&& self.slots_match()
        &&& self@.consistent()
    }

    /// The settings that the state was made from.
    pub closed spec fn settings(&self) -> Config {
        self.config
    }

    /// The settings that the state was made from.
    pub fn config(&self) -> (r: &Config)
        ensures
            *r == self.settings(),
            self@.order == text::texts(r.chain.order@),
            self@.max_retries == r.rate_limit.max_retries,
            self@.initial_backoff_ms == r.rate_limit.initial_backoff_ms,
    {
        &self.config
    }

    /// Sets up a provider for each entry of the settings.
    pub fn new(config: Config) -> (r: AppState)
        requires
            config.wf(),
        ensures
            r.wf(),
            r@ == AppModel::start(config),
            r.settings() == config,
    {
        let mut directory = directory_new();
        let mut providers: Vec<Provider> = Vec::new();
        let ghost entries = config.providers@;
        let n: usize = config.providers.len();
        for i in 0..n
            invariant
                n == entries.len(),
                entries == config.providers@,
                config::names_differ(entries),
                providers@.len() == i,
                forall|name: Seq<char>| #[trigger]
                    directory_contents(directory).contains_key(name) ==> {
                        let slot = directory_contents(directory)[name];
                        slot < i && entries[slot as int].0 == name
                    },
                forall|j: int|
                    0 <= j < i ==> directory_contents(directory).contains_key(
                        (#[trigger] entries[j]).0,
                    ),
                forall|j: int|
                    0 <= j < i ==> (#[trigger] providers@[j])@ == ProviderModel::fresh(
                        entries[j].0,
                        entries[j].1,
                        fresh_breaker(config.circuit_breaker),
                    ),
                forall|j: int| 0 <= j < i ==> (#[trigger] providers@[j]).wf(),
        {
            let breaker = CircuitBreaker::new(
                config.circuit_breaker.failure_threshold,
                config.circuit_breaker.cooldown_secs,
                config.circuit_breaker.success_threshold,
            );
            let name = config.providers.name(i);
            let provider = Provider::new(name.as_str(), config.providers.settings(i), breaker);
            providers.push(provider);
            directory_insert(&mut directory, name.clone(), i);
        }
        let r = AppState { config, directory, providers };
        proof {
            let started = fresh_providers(entries, config.circuit_breaker);
            assert forall|name: Seq<char>| r@.providers.contains_key(name)
                == started.contains_key(name) by {
                if config::has_name(entries, name) {
                    let j = choose|j: int| 0 <= j < entries.len() && #[trigger] entries[j].0 == name;
                    assert(directory_contents(directory).contains_key(entries[j].0));
                }
                if directory_contents(directory).contains_key(name) {
                    let slot = directory_contents(directory)[name];
                    assert(entries[slot as int].0 == name);
                }
            }
            assert forall|name: Seq<char>| #[trigger]
                r@.providers.contains_key(name) implies r@.providers[name] == started[name] && r@
                .providers[name].name == name && r@.providers[name].consistent() by {
                let slot = directory_contents(directory)[name] as int;
                assert(entries[slot].0 == name);
                let j = choose|j: int| 0 <= j < entries.len() && #[trigger] entries[j].0 == name;
                assert(j == slot);
                assert(providers@[slot].wf());
            }
            assert(r@.providers =~= started);
        }
        r
    }

    fn slot(&self, name: &str) -> (r: Option<usize>)
        requires
            self.wf(),
        ensures
            r is Some <==> self@.providers.contains_key(name@),
            r matches Some(slot) ==> slot < self.providers@.len() && self.providers@[slot as int]@
                == self@.providers[name@] && directory_contents(self.directory)[name@] == slot,
    {
        directory_get(&self.directory, name)
    }

    /// The provider of the given name, if there is one.
    pub fn provider(&self, name: &str) -> (r: Option<&Provider>)
        requires
            self.wf(),
        ensures
            r is Some <==> self@.providers.contains_key(name@),
            r matches Some(p) ==> p@ == self@.providers[name@] && p.wf() && p@.name == name@,
    {
        match self.slot(name) {
            Some(slot) => Some(&self.providers[slot]),
            None => None,
        }
    }

    /// Whether the breaker of a provider lets a request pass at the time `now`.
    pub fn is_available_at(&mut self, name: &str, now: Timestamp) -> (r: bool)
        requires
            old(self).wf(),
        ensures
            final(self).wf(),
            final(self).settings() == old(self).settings(),
            !old(self)@.providers.contains_key(name@) ==> !r && final(self)@ == old(self)@,
            old(self)@.providers.contains_key(name@) ==> {
                let p = old(self)@.providers[name@];
                r == p.available(now@) && final(self)@ == old(self)@.with(
                    name@,
                    p.asked(now@),
                )
            },
    {
        match self.slot(name) {
            Some(slot) => {
                let ghost before = *self;
                let r = self.providers[slot].is_available_at(now);
                proof {
                    lemma_one_changed(before, *self, name@, slot as int);
                }
                r
            },
            None => false,
        }
    }

    /// Notes a success of a provider at the time `now`.
    pub fn record_success_at(&mut self, name: &str, latency_ms: u128, now: Timestamp)
        requires
            old(self).wf(),
        ensures
            final(self).wf(),
            final(self).settings() == old(self).settings(),
            final(self)@ == old(self)@.succeeded(name@, latency_ms as int, now@),
    {
        if let Some(slot) = self.slot(name) {
            let ghost before = *self;
            self.providers[slot].record_success_at(latency_ms, now);
            proof {
                lemma_one_changed(before, *self, name@, slot as int);
            }
        }
    }

    /// Notes a failure of a provider at the time `now`.
    pub fn record_failure_at(&mut self, name: &str, error: &ApiError, now: Timestamp)
        requires
            old(self).wf(),
        ensures
            final(self).wf(),
            final(self).settings() == old(self).settings(),
            final(self)@ == old(self)@.failed(name@, error@, now@),
    {
        if let Some(slot) = self.slot(name) {
            let ghost before = *self;
            self.providers[slot].record_failure_at(error, now);
            proof {
                lemma_one_changed(before, *self, name@, slot as int);
            }
        }
    }

    /// Decides what to do with a response of a provider. A response of a
    /// provider that is not known passes.
    pub fn response_received(
        &mut self,
        name: &str,
        status: u16,
        retry_after: Option<&str>,
        empty: bool,
    ) -> (r: Verdict)
        requires
            old(self).wf(),
        ensures
            final(self).wf(),
            final(self).settings() == old(self).settings(),
            final(self)@ == old(self)@.responded(name@, status),
            r@ == old(self)@.verdict(
                name@,
                status,
                match retry_after {
                    Some(value) => Some(value@),
                    None => None,
                },
                empty,
            ),
    {
        match self.slot(name) {
            Some(slot) => {
                let ghost before = *self;
                let r = self.providers[slot].response_received(status, retry_after, empty);
                proof {
                    lemma_one_changed(before, *self, name@, slot as int);
                }
                r
            },
            None => Verdict::Pass,
        }
    }

    /// The health of the gateway: that of each provider, in chain order, and
    /// the sums over them.
    pub fn health(&self) -> (r: HealthReport)
        requires
            self.wf(),
        ensures
            report_models(r.providers@) == self@.health(self@.order),
            r.total_requests == capped(requests_in(self@.health(self@.order))),
            r.total_errors == capped(errors_in(self@.health(self@.order))),
            text::texts(r.chain_order@) == self@.order,
    {
        let order = &self.config.chain.order;
        let mut providers: Vec<HealthSnapshot> = Vec::new();
        let mut total_requests: u64 = 0;
        let mut total_errors: u64 = 0;
        let ghost names = self@.order;
        assert(names.take(0) =~= Seq::empty());
        for i in 0..order.len()
            invariant
                self.wf(),
                names == self@.order,
                order == self.config.chain.order,
                report_models(providers@) == self@.health(names.take(i as int)),
                total_requests == capped(requests_in(self@.health(names.take(i as int)))),
                total_errors == capped(errors_in(self@.health(names.take(i as int)))),
        {
            let ghost so_far = self@.health(names.take(i as int));
            let ghost before = providers@;
            proof {
                assert(names.take(i + 1).drop_last() =~= names.take(i as int));
                assert(names.take(i + 1).last() == order@[i as int]@);
            }
            if let Some(provider) = self.provider(order[i].as_str()) {
                let report = provider.health();
                proof {
                    assert(so_far.push(report@).drop_last() =~= so_far);
                }
                total_requests = total_requests.saturating_add(report.metrics.total_requests);
                total_errors = total_errors.saturating_add(report.metrics.failed_requests);
                providers.push(report);
                assert(report_models(providers@) =~= report_models(before).push(report@));
            }
        }
        assert(names.take(names.len() as int) =~= names);
        HealthReport { providers, total_requests, total_errors, chain_order: text::clone_texts(order) }
    }
}

proof fn lemma_one_changed(before: AppState, after: AppState, name: Seq<char>, slot: int)
    requires
        before.wf(),
        before@.providers.contains_key(name),
        directory_contents(before.directory)[name] == slot,
        after.config == before.config,
        after.directory == before.directory,
        after.providers@.len() == before.providers@.len(),
        forall|i: int|
            0 <= i < before.providers@.len() && i != slot ==> after.providers@[i]
                == before.providers@[i],
        after.providers@[slot]@.name == name,
        after.providers@[slot].wf(),
    ensures
        after.wf(),
        after@ == before@.with(name, after.providers@[slot]@),
{
    let target = before@.with(name, after.providers@[slot]@);
    assert forall|k: Seq<char>| #[trigger] after@.providers.contains_key(k) implies after@.providers[k]
        == target.providers[k] && after@.providers[k].name == k
        && after@.providers[k].consistent() by {
        assert(before@.providers.contains_key(k));
        let at = directory_contents(before.directory)[k] as int;
        if k != name {
            assert(before.providers@[at]@.name == k);
            assert(before.providers@[slot]@.name == name);
            assert(at != slot);
        }
    }
    assert(after@.providers =~= target.providers);
}

// ---------------------------------------------------------------------------
// Laws
// ---------------------------------------------------------------------------

/// Each provider has a breaker, keys and counters of its own: what happens to
/// one provider leaves every other as it is.
pub proof fn events_stay_with_their_provider(
    app: AppModel,
    name: Seq<char>,
    other: Seq<char>,
    e: ApiErrorModel,
    status: u16,
    latency_ms: int,
    now: int,
)
    requires
        name != other,
    ensures
        app.succeeded(name, latency_ms, now).providers[other] == app.providers[other],
        app.failed(name, e, now).providers[other] == app.providers[other],
        app.responded(name, status).providers[other] == app.providers[other],
{
}

/// No event adds or removes a provider.
pub proof fn providers_never_vanish(
    app: AppModel,
    name: Seq<char>,
    e: ApiErrorModel,
    status: u16,
    latency_ms: int,
    now: int,
)
    ensures
        app.succeeded(name, latency_ms, now).providers.dom() == app.providers.dom(),
        app.failed(name, e, now).providers.dom() == app.providers.dom(),
        app.responded(name, status).providers.dom() == app.providers.dom(),
{
    assert(app.succeeded(name, latency_ms, now).providers.dom() =~= app.providers.dom());
    assert(app.failed(name, e, now).providers.dom() =~= app.providers.dom());
    assert(app.responded(name, status).providers.dom() =~= app.providers.dom());
}

/// A gateway starts with every breaker closed and nothing counted.
pub proof fn fresh_gateway_has_counted_nothing(config: Config, order: Seq<Seq<char>>)
    ensures
        forall|name: Seq<char>| #[trigger]
            AppModel::start(config).providers.contains_key(name) ==> {
                let p = AppModel::start(config).providers[name];
                p.breaker.state == crate::circuit_breaker::BreakerState::Closed && p.breaker.failures
                    == 0
            },
        requests_in(AppModel::start(config).health(order)) == 0,
        errors_in(AppModel::start(config).health(order)) == 0,
    decreases order.len(),
{
    if order.len() > 0 {
        let app = AppModel::start(config);
        fresh_gateway_has_counted_nothing(config, order.drop_last());
        let before = app.health(order.drop_last());
        if app.providers.contains_key(order.last()) {
            assert(before.push(app.providers[order.last()].health()).drop_last() =~= before);
        }
    }
}

/// A gateway starts with one fresh provider for each entry of its settings,
/// each with a fresh breaker of its own, and with no other.
pub proof fn gateway_starts_from_its_settings(config: Config, i: int, name: Seq<char>)
    requires
        config.wf(),
    ensures
        AppModel::start(config).order == text::texts(config.chain.order@),
        AppModel::start(config).max_retries == config.rate_limit.max_retries,
        AppModel::start(config).initial_backoff_ms == config.rate_limit.initial_backoff_ms,
        0 <= i < config.providers@.len() ==> {
            let entry = config.providers@[i];
            &&& AppModel::start(config).providers.contains_key(entry.0)
            &&& AppModel::start(config).providers[entry.0] == ProviderModel::fresh(
                entry.0,
                entry.1,
                BreakerModel::fresh(
                    config.circuit_breaker.failure_threshold as int,
                    config.circuit_breaker.cooldown_secs as int,
                    config.circuit_breaker.success_threshold as int,
                ),
            )
        },
        (forall|j: int| 0 <= j < config.providers@.len() ==> #[trigger] config.providers@[j].0 != name)
            ==> !AppModel::start(config).providers.contains_key(name),
{
    if 0 <= i < config.providers@.len() {
        config::tables_find_their_entries(config.providers@, i);
    }
}

/// What happens to a provider is noted with that provider; the settings of the
/// gateway stay, and events of a provider that is not known change nothing.
pub proof fn events_reach_their_provider(
    app: AppModel,
    name: Seq<char>,
    e: ApiErrorModel,
    status: u16,
    latency_ms: int,
    now: int,
)
    ensures
        app.providers.contains_key(name) ==> {
            let p = app.providers[name];
            &&& app.succeeded(name, latency_ms, now).providers[name] == p.succeeded(latency_ms, now)
            &&& app.failed(name, e, now).providers[name] == p.failed(e, now)
            &&& app.responded(name, status).providers[name] == p.responded(status)
        },
        !app.providers.contains_key(name) ==> app.succeeded(name, latency_ms, now) == app
            && app.failed(name, e, now) == app && app.responded(name, status) == app,
        app.succeeded(name, latency_ms, now).order == app.order && app.failed(name, e, now).order
            == app.order && app.responded(name, status).order == app.order,
        app.succeeded(name, latency_ms, now).max_retries == app.max_retries && app.failed(
            name,
            e,
            now,
        ).max_retries == app.max_retries && app.responded(name, status).max_retries
            == app.max_retries,
        app.succeeded(name, latency_ms, now).initial_backoff_ms == app.initial_backoff_ms
            && app.failed(name, e, now).initial_backoff_ms == app.initial_backoff_ms
            && app.responded(name, status).initial_backoff_ms == app.initial_backoff_ms,
{
}

/// Changing one provider changes that one and no other.
pub proof fn one_provider_at_a_time(
    app: AppModel,
    name: Seq<char>,
    p: ProviderModel,
    other: Seq<char>,
)
    ensures
        app.with(name, p).providers.contains_key(name) && app.with(name, p).providers[name] == p,
        other != name ==> app.with(name, p).providers.contains_key(other)
            == app.providers.contains_key(other),
        other != name && app.providers.contains_key(other) ==> app.with(name, p).providers[other]
            == app.providers[other],
        app.with(name, p).order == app.order && app.with(name, p).max_retries == app.max_retries
            && app.with(name, p).initial_backoff_ms == app.initial_backoff_ms,
{
}

/// What becomes of a response is decided by the provider that sent it.
pub proof fn verdicts_are_the_providers(
    app: AppModel,
    name: Seq<char>,
    status: u16,
    retry_after: Option<Seq<char>>,
    empty: bool,
)
    requires
        app.providers.contains_key(name),
    ensures
        app.verdict(name, status, retry_after, empty) == app.providers[name].verdict(
            status,
            retry_after,
            empty,
        ),
{
}

/// The health report goes along the chain: it holds one report for each place
/// whose provider is known, in order, and none for the others.
pub proof fn health_goes_along_the_chain(app: AppModel, order: Seq<Seq<char>>, name: Seq<char>)
    ensures
        app.health(Seq::empty()).len() == 0,
        app.providers.contains_key(name) ==> app.health(order.push(name)) == app.health(order).push(
            app.providers[name].health(),
        ),
        !app.providers.contains_key(name) ==> app.health(order.push(name)) == app.health(order),
{
    assert(order.push(name).drop_last() =~= order);
}

/// The sums over a health report take in every provider that it holds.
pub proof fn sums_take_in_every_report(reports: Seq<HealthModel>, report: HealthModel)
    ensures
        requests_in(Seq::empty()) == 0,
        errors_in(Seq::empty()) == 0,
        requests_in(reports.push(report)) == requests_in(reports) + report.metrics.total_requests,
        errors_in(reports.push(report)) == errors_in(reports) + report.metrics.failed_requests,
{
    assert(reports.push(report).drop_last() =~= reports);
}

/// A sum that fits in 64 bits is reported as it is, and a larger one as the
/// largest number that does.
pub proof fn sums_are_capped(n: int)
    ensures
        n <= 0xffff_ffff_ffff_ffff ==> capped(n) == n,
        n > 0xffff_ffff_ffff_ffff ==> capped(n) == 0xffff_ffff_ffff_ffff,
{
}

/// A list of reports stands for those reports, in order.
pub proof fn models_of_reports(reports: Seq<HealthSnapshot>)
    ensures
        report_models(reports).len() == reports.len(),
        forall|i: int| 0 <= i < reports.len() ==> #[trigger] report_models(reports)[i] == reports[i]@,
{
}

} // verus!
