use fleet_gateway::chain::{backoff_ms, ChainWalk, Phase, Step};
use fleet_gateway::clock::Timestamp;
use fleet_gateway::config::{
    ChainConfig, CircuitBreakerConfig, Config, ProviderConfig, ProviderTable, RateLimitConfig,
    ServerConfig,
};
use fleet_gateway::error::ApiError;
use fleet_gateway::proxy::FieldValue;
use fleet_gateway::server::AppState;

fn at(secs: i64) -> Timestamp {
    Timestamp::new(secs, 0).unwrap()
}

fn config(max_retries: u32, providers: &[(&str, &[&str], &[&str])], order: &[&str]) -> Config {
    let list = |items: &[&str]| items.iter().map(|s| s.to_string()).collect::<Vec<String>>();
    let mut table = ProviderTable::new();
    for (name, keys, models) in providers {
        table.insert(
            name.to_string(),
            ProviderConfig {
                base_url: format!("http://{name}"),
                keys: list(keys),
                models: list(models),
            },
        );
    }
    Config {
        server: ServerConfig { listen: "127.0.0.1:0".into() },
        circuit_breaker: CircuitBreakerConfig {
            failure_threshold: 2,
            cooldown_secs: 60,
            success_threshold: 1,
        },
        rate_limit: RateLimitConfig { max_retries, initial_backoff_ms: 500 },
        providers: table,
        chain: ChainConfig { order: list(order) },
    }
}

fn begin(config: &Config, model: &str) -> ChainWalk {
    let body = format!("{{\"model\": \"{model}\"}}");
    ChainWalk::start(config, "/chat/completions", None, body.as_bytes())
}

fn sent_to(step: &Step) -> &str {
    match step {
        Step::Send { provider, .. } => provider,
        other => panic!("{other:?}"),
    }
}

fn class_of(step: &Step) -> &str {
    match step {
        Step::Reply(reply) => match &reply.fields[0].value {
            FieldValue::Text(class) => class,
            other => panic!("{other:?}"),
        },
        other => panic!("{other:?}"),
    }
}

fn status_of(step: &Step) -> u16 {
    match step {
        Step::Reply(reply) => reply.status,
        other => panic!("{other:?}"),
    }
}

#[test]
fn first_suitable_provider_is_chosen() {
    let c = config(
        0,
        &[("a", &["k"], &["x"]), ("b", &["k"], &["m"]), ("c", &["k"], &["m"])],
        &["a", "gone", "b", "c"],
    );
    let mut state = AppState::new(c);
    let mut walk = begin(state.config(), "m");
    let step = walk.next_at(&mut state, at(0));
    match step {
        Step::Send { provider, request } => {
            assert_eq!(provider, "b");
            assert_eq!(request.url, "http://b/chat/completions");
            assert_eq!(request.bearer.as_deref(), Some("k"));
            assert_eq!(request.content_type, "application/json");
        }
        other => panic!("{other:?}"),
    }
    assert_eq!(walk.phase(), Phase::Sent);
}

#[test]
fn request_without_a_model_takes_the_first_provider() {
    let mut state = AppState::new(config(0, &[("a", &["k"], &[]), ("b", &["k"], &["m"])], &["a", "b"]));
    let mut walk = ChainWalk::start(state.config(), "/x", Some("audio/wav".into()), b"");
    match walk.next_at(&mut state, at(0)) {
        Step::Send { provider, request } => {
            assert_eq!(provider, "a");
            assert_eq!(request.content_type, "audio/wav");
        }
        other => panic!("{other:?}"),
    }
}

#[test]
fn providers_without_keys_are_passed_over() {
    let c = config(0, &[("a", &[], &["m"]), ("ollama", &[], &[])], &["a", "ollama"]);
    let mut state = AppState::new(c);
    let mut walk = begin(state.config(), "m");
    let step = walk.next_at(&mut state, at(0));
    assert_eq!(sent_to(&step), "ollama");
}

#[test]
fn no_suitable_provider_answers_503() {
    let mut state = AppState::new(config(2, &[("a", &["k"], &["x"])], &["a"]));
    let mut walk = begin(state.config(), "m");
    let step = walk.next_at(&mut state, at(0));
    assert_eq!(status_of(&step), 503);
    assert_eq!(class_of(&step), "all_providers_exhausted");
    assert_eq!(walk.phase(), Phase::Done);
}

#[test]
fn success_is_streamed_and_counted() {
    let mut state = AppState::new(config(0, &[("a", &["k"], &["m"])], &["a"]));
    let mut walk = begin(state.config(), "m");
    walk.next_at(&mut state, at(0));
    assert!(matches!(walk.response_at(&mut state, 200, None, false, 40, at(1)), Step::Stream));
    let p = state.provider("a").unwrap();
    assert_eq!(p.metrics.successful_requests, 1);
    assert_eq!(p.metrics.total_latency_ms, 40);
}

#[test]
fn client_errors_are_streamed() {
    let mut state = AppState::new(config(0, &[("a", &["k"], &["m"])], &["a"]));
    let mut walk = begin(state.config(), "m");
    walk.next_at(&mut state, at(0));
    assert!(matches!(walk.response_at(&mut state, 404, None, false, 1, at(1)), Step::Stream));
}

#[test]
fn rate_limits_are_retried_with_growing_pauses() {
    let c = config(2, &[("a", &["k"], &["m"]), ("b", &["k"], &["m"])], &["a", "b"]);
    let mut state = AppState::new(c);
    let mut walk = begin(state.config(), "m");
    walk.next_at(&mut state, at(0));
    let step = walk.response_at(&mut state, 429, None, false, 1, at(1));
    assert!(matches!(step, Step::Wait { millis: 500 }));
    assert_eq!(walk.phase(), Phase::Waiting);
    assert_eq!(sent_to(&walk.retry(&state)), "a");
    let step = walk.response_at(&mut state, 429, Some("3"), false, 1, at(2));
    assert!(matches!(step, Step::Wait { millis: 3000 }));
    assert_eq!(sent_to(&walk.retry(&state)), "a");
    let step = walk.response_at(&mut state, 429, None, false, 1, at(3));
    assert_eq!(sent_to(&step), "b");
    assert_eq!(state.provider("a").unwrap().metrics.rate_limited_count, 3);
}

#[test]
fn dead_keys_fall_through_at_once() {
    let c = config(5, &[("a", &["k1", "k2"], &["m"]), ("b", &["k"], &["m"])], &["a", "b"]);
    let mut state = AppState::new(c);
    let mut walk = begin(state.config(), "m");
    walk.next_at(&mut state, at(0));
    assert!(matches!(walk.response_at(&mut state, 401, None, false, 1, at(1)), Step::ReadBody));
    assert_eq!(walk.phase(), Phase::Reading { status: 401 });
    let step = walk.body_read_at(&mut state, "dead".into(), at(1));
    assert_eq!(sent_to(&step), "b");
    assert_eq!(state.provider("a").unwrap().metrics.auth_errors, 1);
    assert_eq!(state.provider("a").unwrap().key_chain.current_key().as_deref(), Some("k2"));
}

#[test]
fn last_error_is_reported() {
    let c = config(0, &[("a", &["k"], &["m"]), ("b", &["k"], &["m"])], &["a", "b"]);
    let mut state = AppState::new(c);
    let mut walk = begin(state.config(), "m");
    walk.next_at(&mut state, at(0));
    assert!(matches!(walk.response_at(&mut state, 500, None, false, 1, at(1)), Step::ReadBody));
    assert_eq!(sent_to(&walk.body_read_at(&mut state, "boom".into(), at(1))), "b");
    let step = walk.lost_at(&mut state, true, "late".into(), at(2));
    assert_eq!(status_of(&step), 503);
    assert_eq!(class_of(&step), "timeout");
    assert_eq!(state.provider("b").unwrap().metrics.timeout_count, 1);
}

#[test]
fn request_that_cannot_be_sent_is_a_network_error() {
    let mut state = AppState::new(config(0, &[("a", &["k"], &["m"])], &["a"]));
    let mut walk = begin(state.config(), "m");
    walk.next_at(&mut state, at(0));
    let e = reqwest::Client::new().get("no address").build().unwrap_err();
    let step = walk.request_failed_at(&mut state, &e, at(1));
    assert_eq!(status_of(&step), 503);
    assert_eq!(class_of(&step), "network_error");
    assert_eq!(
        state.provider("a").unwrap().metrics.last_error.clone(),
        Some(format!("network error on a: {e}"))
    );
}

#[test]
fn open_breaker_is_passed_over_until_the_cooldown_is_over() {
    let c = config(0, &[("a", &["k"], &["m"]), ("b", &["k"], &["m"])], &["a", "b"]);
    let mut state = AppState::new(c);
    for _ in 0..2 {
        let mut walk = begin(state.config(), "m");
        assert_eq!(sent_to(&walk.next_at(&mut state, at(10))), "a");
        walk.lost_at(&mut state, false, "reset".into(), at(10));
    }
    let mut walk = begin(state.config(), "m");
    assert_eq!(sent_to(&walk.next_at(&mut state, at(69))), "b");
    let mut walk = begin(state.config(), "m");
    assert_eq!(sent_to(&walk.next_at(&mut state, at(70))), "a");
    assert_eq!(state.provider("a").unwrap().breaker.state().as_str(), "half_open");
}

#[test]
fn every_provider_gets_its_attempts_and_no_more() {
    let c = config(2, &[("a", &["k"], &["m"]), ("b", &["k"], &["m"])], &["a", "b"]);
    let mut state = AppState::new(c);
    let mut walk = begin(state.config(), "m");
    let mut step = walk.next_at(&mut state, at(0));
    let mut sent = vec![];
    loop {
        step = match step {
            Step::Send { provider, .. } => {
                sent.push(provider);
                walk.lost_at(&mut state, false, "reset".into(), at(0))
            }
            Step::Wait { .. } => walk.retry(&state),
            other => {
                assert_eq!(status_of(&other), 503);
                break;
            }
        };
    }
    assert_eq!(sent, vec!["a", "a", "a", "b", "b", "b"]);
}

#[test]
fn pauses_in_full() {
    let limited = |secs| ApiError::RateLimited { provider: "p".into(), retry_after_secs: secs };
    assert_eq!(backoff_ms(&limited(Some(2)), 500, 7), 2000);
    assert_eq!(backoff_ms(&limited(Some(u64::MAX)), 500, 0), u64::MAX as u128 * 1000);
    assert_eq!(backoff_ms(&limited(None), 500, 0), 500);
    assert_eq!(backoff_ms(&limited(None), 500, 3), 4000);
    assert_eq!(backoff_ms(&ApiError::AllProvidersExhausted, 1, 63), 1 << 63);
    assert_eq!(backoff_ms(&ApiError::AllProvidersExhausted, 1, 64), u64::MAX as u128);
    assert_eq!(backoff_ms(&ApiError::AllProvidersExhausted, 3, u64::MAX), u64::MAX as u128);
    assert_eq!(backoff_ms(&ApiError::AllProvidersExhausted, 0, u64::MAX), 0);
}

#[test]
fn health_of_the_gateway() {
    let c = config(
        0,
        &[("a", &["k"], &["m"]), ("b", &["k"], &["m"]), ("c", &["k"], &["m"])],
        &["b", "gone", "a"],
    );
    let mut state = AppState::new(c);
    let mut walk = begin(state.config(), "m");
    walk.next_at(&mut state, at(0));
    walk.lost_at(&mut state, true, "late".into(), at(1));
    walk.response_at(&mut state, 200, None, false, 40, at(2));
    let report = state.health();
    let names: Vec<&str> = report.providers.iter().map(|p| p.provider.as_str()).collect();
    assert_eq!(names, vec!["b", "a"]);
    assert_eq!(report.total_requests, 2);
    assert_eq!(report.total_errors, 1);
    assert_eq!(report.chain_order, vec!["b", "gone", "a"]);
}

#[test]
fn unknown_names_have_no_provider() {
    let mut state = AppState::new(config(0, &[("a", &["k"], &["m"])], &["a"]));
    assert!(state.provider("a").is_some());
    assert!(state.provider("A").is_none());
    assert!(state.provider("").is_none());
    assert!(!state.is_available_at("gone", at(0)));
    assert!(state.is_available_at("a", at(0)));
}

#[test]
fn failures_stay_with_their_provider() {
    let c = config(0, &[("a", &["k1", "k2"], &["m"]), ("b", &["k1", "k2"], &["m"])], &["a", "b"]);
    let mut state = AppState::new(c);
    for _ in 0..2 {
        state.response_received("a", 401, None, false);
        let dead = ApiError::Auth { provider: "a".into(), status: 401, body: "".into() };
        state.record_failure_at("a", &dead, at(1));
    }
    state.response_received("a", 403, None, false);
    assert_eq!(state.provider("a").unwrap().breaker.state().as_str(), "open");
    assert_eq!(state.provider("a").unwrap().metrics.auth_errors, 2);
    assert_eq!(state.provider("a").unwrap().key_chain.current_key().as_deref(), Some("k2"));
    let b = state.provider("b").unwrap();
    assert_eq!(b.breaker.state().as_str(), "closed");
    assert_eq!(b.metrics.total_requests, 0);
    assert_eq!(b.key_chain.current_key().as_deref(), Some("k1"));
    state.record_success_at("gone", 1, at(2));
    assert_eq!(state.health().total_requests, 2);
}

#[test]
fn fresh_gateway_reports_nothing() {
    let state = AppState::new(config(0, &[("a", &["k"], &["m"])], &["a"]));
    let report = state.health();
    assert_eq!(report.total_requests, 0);
    assert_eq!(report.total_errors, 0);
    assert_eq!(report.providers[0].breaker_state, "closed");
    assert_eq!(report.providers[0].metrics.last_request_at, None);
}

#[test]
fn retries_go_to_the_same_provider_though_its_breaker_has_opened() {
    let c = config(3, &[("a", &["k"], &["m"]), ("b", &["k"], &["m"])], &["a", "b"]);
    let mut state = AppState::new(c);
    let mut walk = begin(state.config(), "m");
    walk.next_at(&mut state, at(0));
    for _ in 0..3 {
        let step = walk.lost_at(&mut state, false, "reset".into(), at(0));
        assert!(matches!(step, Step::Wait { .. }));
        assert_eq!(sent_to(&walk.retry(&state)), "a");
    }
    assert_eq!(state.provider("a").unwrap().breaker.state().as_str(), "open");
    assert_eq!(sent_to(&walk.lost_at(&mut state, false, "reset".into(), at(0))), "b");
}

#[test]
fn rate_limit_of_the_last_provider_answers_503() {
    let mut state = AppState::new(config(0, &[("a", &["k"], &["m"])], &["a"]));
    let mut walk = begin(state.config(), "m");
    walk.next_at(&mut state, at(0));
    let step = walk.response_at(&mut state, 429, Some("7"), false, 1, at(1));
    assert_eq!(status_of(&step), 503);
    assert_eq!(class_of(&step), "rate_limited");
}

#[test]
fn empty_responses_get_two_retries_of_their_own() {
    for max_retries in [0, 1, 5] {
        let c = config(max_retries, &[("a", &["k"], &["m"]), ("b", &["k"], &["m"])], &["a", "b"]);
        let mut state = AppState::new(c);
        let mut walk = begin(state.config(), "m");
        walk.next_at(&mut state, at(0));
        for millis in [500, 1000] {
            match walk.response_at(&mut state, 200, None, true, 1, at(1)) {
                Step::Wait { millis: pause } => assert_eq!(pause, millis),
                other => panic!("{other:?}"),
            }
            assert_eq!(sent_to(&walk.retry(&state)), "a");
        }
        let step = walk.response_at(&mut state, 200, None, true, 1, at(1));
        assert_eq!(sent_to(&step), "b");
        let a = state.provider("a").unwrap();
        assert_eq!(a.metrics.failed_requests, 3);
        assert_eq!(a.metrics.last_error.as_deref(), Some("empty response from a"));
        assert_eq!(a.breaker.state().as_str(), "closed");
        assert_eq!(a.breaker.consecutive_failures(), 0);
    }
}

#[test]
fn empty_responses_leave_the_other_retries_alone() {
    let mut state = AppState::new(config(1, &[("a", &["k"], &["m"])], &["a"]));
    let mut walk = begin(state.config(), "m");
    walk.next_at(&mut state, at(0));
    for empty in [true, false, true] {
        let status = if empty { 200 } else { 429 };
        let step = walk.response_at(&mut state, status, None, empty, 1, at(1));
        assert!(matches!(step, Step::Wait { .. }));
        assert_eq!(sent_to(&walk.retry(&state)), "a");
    }
    let step = walk.response_at(&mut state, 200, None, true, 1, at(1));
    assert_eq!(status_of(&step), 503);
    assert_eq!(class_of(&step), "empty_response");
}

#[test]
fn one_request_at_a_time_probes_a_provider() {
    let c = config(0, &[("a", &["k"], &["m"]), ("b", &["k"], &["m"])], &["a", "b"]);
    let mut state = AppState::new(c);
    for _ in 0..2 {
        let mut walk = begin(state.config(), "m");
        walk.next_at(&mut state, at(10));
        walk.lost_at(&mut state, false, "reset".into(), at(10));
    }
    let mut probe = begin(state.config(), "m");
    assert_eq!(sent_to(&probe.next_at(&mut state, at(70))), "a");
    let mut other = begin(state.config(), "m");
    assert_eq!(sent_to(&other.next_at(&mut state, at(71))), "b");
    assert!(matches!(probe.response_at(&mut state, 200, None, false, 1, at(72)), Step::Stream));
    let mut next = begin(state.config(), "m");
    assert_eq!(sent_to(&next.next_at(&mut state, at(73))), "a");
}

#[test]
fn provider_without_keys_is_never_asked() {
    let mut state = AppState::new(config(0, &[("a", &[], &["m"])], &["a"]));
    let error = ApiError::Timeout { provider: "a".into(), secs: 300 };
    state.record_failure_at("a", &error, at(0));
    state.record_failure_at("a", &error, at(0));
    let mut walk = begin(state.config(), "m");
    assert_eq!(status_of(&walk.next_at(&mut state, at(100))), 503);
    assert_eq!(state.provider("a").unwrap().breaker.state().as_str(), "open");
}

#[test]
fn longest_retry_after_is_respected() {
    let mut state = AppState::new(config(1, &[("a", &["k"], &["m"])], &["a"]));
    let mut walk = begin(state.config(), "m");
    walk.next_at(&mut state, at(0));
    match walk.response_at(&mut state, 429, Some("18446744073709552"), false, 1, at(1)) {
        Step::Wait { millis } => assert_eq!(millis, 18_446_744_073_709_552_000),
        other => panic!("{other:?}"),
    }
}
