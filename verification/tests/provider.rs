use fleet_gateway::circuit_breaker::{BreakerState, CircuitBreaker};
use fleet_gateway::clock::Timestamp;
use fleet_gateway::config::ProviderConfig;
use fleet_gateway::error::ApiError;
use fleet_gateway::provider::{Provider, Verdict};

fn provider(name: &str, keys: &[&str], models: &[&str]) -> Provider {
    let config = ProviderConfig {
        base_url: "http://up/v1".into(),
        keys: keys.iter().map(|k| k.to_string()).collect(),
        models: models.iter().map(|m| m.to_string()).collect(),
    };
    Provider::new(name, &config, CircuitBreaker::new(2, 60, 1))
}

fn at(secs: i64) -> Timestamp {
    Timestamp::new(secs, 0).unwrap()
}

#[test]
fn serves_its_models_only() {
    let p = provider("p", &["k"], &["m1", "m2"]);
    assert!(p.serves_model("m1"));
    assert!(p.serves_model("m2"));
    assert!(!p.serves_model("m"));
    assert!(!p.serves_model(""));
}

#[test]
fn local_fallback_serves_everything_without_a_key() {
    let p = provider("ollama", &[], &[]);
    assert!(p.serves_model("anything"));
    assert!(p.has_key());
    assert!(!provider("p", &[], &[]).has_key());
    assert!(provider("p", &["k"], &[]).has_key());
}

#[test]
fn request_carries_the_key_in_use() {
    let p = provider("p", &["k1", "k2"], &[]);
    let r = p.request("/chat/completions", "text/plain");
    assert_eq!(r.url, "http://up/v1/chat/completions");
    assert_eq!(r.bearer.as_deref(), Some("k1"));
    assert_eq!(r.content_type, "text/plain");
    assert_eq!(provider("ollama", &[], &[]).request("/x", "a").bearer, None);
}

#[test]
fn passing_responses() {
    let mut p = provider("p", &["k1", "k2"], &[]);
    for status in [200u16, 201, 302, 400, 404, 499] {
        assert!(matches!(p.response_received(status, None, false), Verdict::Pass));
    }
    assert_eq!(p.key_chain.current_key().as_deref(), Some("k1"));
    assert!(matches!(p.response_received(204, None, true), Verdict::Pass));
}

#[test]
fn empty_body_of_a_200_is_an_error() {
    let mut p = provider("p", &["k"], &[]);
    match p.response_received(200, None, true) {
        Verdict::Fail(ApiError::EmptyResponse { provider }) => assert_eq!(provider, "p"),
        other => panic!("{other:?}"),
    }
    assert!(matches!(p.response_received(401, None, true), Verdict::ReadBody));
    assert!(matches!(p.response_received(500, None, true), Verdict::ReadBody));
}

#[test]
fn empty_response_ends_the_probe() {
    let mut p = provider("p", &["k"], &[]);
    let e = ApiError::Timeout { provider: "p".into(), secs: 300 };
    p.record_failure_at(&e, at(10));
    p.record_failure_at(&e, at(10));
    assert!(p.is_available_at(at(70)));
    assert!(!p.is_available_at(at(71)));
    p.record_failure_at(&ApiError::EmptyResponse { provider: "p".into() }, at(72));
    assert_eq!(p.breaker.state(), BreakerState::HalfOpen);
    assert!(p.is_available_at(at(73)));
}

#[test]
fn lost_probe_does_not_keep_others_away() {
    let mut p = provider("p", &["k"], &[]);
    let e = ApiError::Timeout { provider: "p".into(), secs: 300 };
    p.record_failure_at(&e, at(10));
    p.record_failure_at(&e, at(10));
    assert!(p.is_available_at(at(70)));
    assert!(!p.is_available_at(at(369)));
    assert!(p.is_available_at(at(370)));
    assert!(!p.is_available_at(at(371)));
}

#[test]
fn rate_limit_reads_retry_after() {
    let mut p = provider("p", &["k"], &[]);
    let cases = vec![
        (Some("7"), Some(7)),
        (Some("Wed, 21 Oct 2015 07:28:00 GMT"), None),
        (Some("-1"), None),
        (None, None),
    ];
    for (header, expected) in cases {
        match p.response_received(429, header, false) {
            Verdict::Fail(ApiError::RateLimited { provider, retry_after_secs }) => {
                assert_eq!(provider, "p");
                assert_eq!(retry_after_secs, expected);
            }
            other => panic!("{other:?}"),
        }
    }
}

#[test]
fn refused_key_goes_out_of_use() {
    let mut p = provider("p", &["k1", "k2"], &[]);
    assert!(matches!(p.response_received(401, None, false), Verdict::ReadBody));
    assert_eq!(p.request("/", "a").bearer.as_deref(), Some("k2"));
    match p.error_response(401, "dead".into()) {
        ApiError::Auth { provider, status, body } => {
            assert_eq!((provider.as_str(), status, body.as_str()), ("p", 401, "dead"));
        }
        other => panic!("{other:?}"),
    }
    assert!(matches!(p.response_received(403, None, false), Verdict::ReadBody));
    assert_eq!(p.request("/", "a").bearer.as_deref(), Some("k1"));
}

#[test]
fn refusal_of_the_local_fallback_is_harmless() {
    let mut p = provider("ollama", &[], &[]);
    assert!(matches!(p.response_received(401, None, false), Verdict::ReadBody));
    assert_eq!(p.request("/", "a").bearer, None);
}

#[test]
fn server_errors_carry_the_body() {
    let mut p = provider("p", &["k"], &[]);
    assert!(matches!(p.response_received(503, None, false), Verdict::ReadBody));
    match p.error_response(503, "down".into()) {
        ApiError::ServerError { provider, status, body } => {
            assert_eq!((provider.as_str(), status, body.as_str()), ("p", 503, "down"));
        }
        other => panic!("{other:?}"),
    }
}

#[test]
fn malformed_request_is_a_network_error() {
    let p = provider("p", &["k"], &[]);
    let e = reqwest::Client::new().get("no address").build().unwrap_err();
    match p.request_failed(&e) {
        ApiError::NetworkError { provider, msg } => {
            assert_eq!(provider, "p");
            assert_eq!(msg, e.to_string());
        }
        other => panic!("{other:?}"),
    }
    match p.lost_request(true, "late".into()) {
        ApiError::Timeout { provider, secs } => {
            assert_eq!((provider.as_str(), secs), ("p", 300));
        }
        other => panic!("{other:?}"),
    }
}

#[test]
fn failures_are_counted_by_class() {
    let mut p = provider("p", &["k"], &[]);
    let name = || String::from("p");
    p.record_failure(&ApiError::Auth { provider: name(), status: 401, body: "".into() });
    p.record_success(5);
    p.record_failure(&ApiError::RateLimited { provider: name(), retry_after_secs: None });
    p.record_success(5);
    p.record_failure(&ApiError::Timeout { provider: name(), secs: 300 });
    p.record_success(5);
    p.record_failure(&ApiError::NetworkError { provider: name(), msg: "reset".into() });
    assert_eq!(p.metrics.auth_errors, 1);
    assert_eq!(p.metrics.rate_limited_count, 1);
    assert_eq!(p.metrics.timeout_count, 1);
    assert_eq!(p.metrics.failed_requests, 4);
    assert_eq!(p.metrics.total_requests, 7);
    assert_eq!(p.metrics.total_latency_ms, 15);
    assert_eq!(p.metrics.last_error.as_deref(), Some("network error on p: reset"));
    assert_eq!(p.breaker.state(), BreakerState::Closed);
}

#[test]
fn empty_responses_do_not_trip_the_breaker() {
    let mut p = provider("p", &["k"], &[]);
    for _ in 0..10 {
        p.record_failure(&ApiError::EmptyResponse { provider: "p".into() });
    }
    assert_eq!(p.breaker.state(), BreakerState::Closed);
    assert_eq!(p.metrics.failed_requests, 10);
}

#[test]
fn breaker_opens_and_recovers() {
    let mut p = provider("p", &["k"], &[]);
    let e = ApiError::Timeout { provider: "p".into(), secs: 300 };
    assert!(p.is_available());
    p.record_failure_at(&e, at(10));
    p.record_failure_at(&e, at(20));
    assert!(!p.is_available_at(at(79)));
    assert!(p.is_available_at(at(80)));
    p.record_success_at(1, at(81));
    assert_eq!(p.breaker.state(), BreakerState::Closed);
}

#[test]
fn health_of_a_provider() {
    let mut p = provider("p", &["k"], &["m"]);
    p.record_failure_at(&ApiError::Timeout { provider: "p".into(), secs: 300 }, at(10));
    let h = p.health();
    assert_eq!(h.provider, "p");
    assert_eq!(h.breaker_state, "closed");
    assert_eq!(h.consecutive_failures, 1);
    assert_eq!(h.models, vec!["m"]);
    assert_eq!(h.metrics.failed_requests, 1);
    assert_eq!(h.metrics.last_request_at.as_deref(), Some("1970-01-01T00:00:10+00:00"));
}
