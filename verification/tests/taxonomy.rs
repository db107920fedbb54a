use fleet_gateway::taxonomy::{TaxonomyError, EMPTY_RESPONSE_MAX_RETRIES};

#[test]
fn classifies_auth() {
    let e = TaxonomyError::classify(401, None, "bad key".into());
    assert_eq!(e, TaxonomyError::AuthError { status: 401, body: "bad key".into() });
    assert!(!e.should_retry());
    assert!(e.should_alarm());
    assert_eq!(e.max_retries(), 0);
}

#[test]
fn classifies_rate_limited() {
    let e = TaxonomyError::classify(429, Some(7), "slow down".into());
    assert_eq!(e, TaxonomyError::RateLimited { retry_after_secs: Some(7) });
    assert!(e.should_retry());
    assert!(!e.should_alarm());
}

#[test]
fn classifies_empty_response() {
    let e = TaxonomyError::classify(200, None, "   ".into());
    assert_eq!(e, TaxonomyError::EmptyResponse);
    assert_eq!(e.max_retries(), EMPTY_RESPONSE_MAX_RETRIES);
}

#[test]
fn classifies_timeout_status() {
    let e = TaxonomyError::classify(408, Some(30), String::new());
    assert_eq!(e, TaxonomyError::Timeout { secs: 30 });
    assert!(e.should_retry());
}

#[test]
fn unclassified_passthrough() {
    let e = TaxonomyError::classify(500, None, "boom".into());
    assert!(matches!(e, TaxonomyError::Other { .. }));
    assert!(e.should_retry());
}

#[test]
fn status_401_maps_to_auth_error() {
    let e = TaxonomyError::classify(401, None, "invalid api key".into());
    assert_eq!(e, TaxonomyError::AuthError { status: 401, body: "invalid api key".into() });
}

#[test]
fn status_403_maps_to_auth_error() {
    let e = TaxonomyError::classify(403, None, "forbidden".into());
    assert_eq!(e, TaxonomyError::AuthError { status: 403, body: "forbidden".into() });
}

#[test]
fn auth_error_never_retries_and_alarms() {
    for status in [401u16, 403] {
        let e = TaxonomyError::classify(status, None, String::new());
        assert!(!e.should_retry(), "{status} must not be retried (dead key)");
        assert!(e.should_alarm(), "{status} must alarm immediately (human fix)");
        assert_eq!(e.max_retries(), 0, "{status} retry budget must be zero");
    }
}

#[test]
fn status_429_maps_to_rate_limited_with_retry_after() {
    let e = TaxonomyError::classify(429, Some(7), "slow down".into());
    assert_eq!(e, TaxonomyError::RateLimited { retry_after_secs: Some(7) });
    assert!(e.should_retry(), "429 backs off and retries");
    assert!(!e.should_alarm(), "429 is routine, not alarming");
    assert_eq!(e.max_retries(), 1);
}

#[test]
fn status_429_without_retry_after_is_none() {
    let e = TaxonomyError::classify(429, None, String::new());
    assert_eq!(e, TaxonomyError::RateLimited { retry_after_secs: None });
    assert!(e.should_retry());
}

#[test]
fn status_200_empty_body_maps_to_empty_response() {
    let e = TaxonomyError::classify(200, None, String::new());
    assert_eq!(e, TaxonomyError::EmptyResponse);
}

#[test]
fn status_200_whitespace_only_body_is_still_empty() {
    let e = TaxonomyError::classify(200, None, "  \n\t  ".into());
    assert_eq!(e, TaxonomyError::EmptyResponse);
}

#[test]
fn empty_response_policy_is_retry_2x_then_advance() {
    let e = TaxonomyError::classify(200, None, String::new());
    assert_eq!(e.max_retries(), EMPTY_RESPONSE_MAX_RETRIES);
    assert_eq!(EMPTY_RESPONSE_MAX_RETRIES, 2, "EmptyResponse budget is pinned at 2");
    assert!(e.should_retry(), "EmptyResponse is retried before chain advance");
    assert!(!e.should_alarm(), "EmptyResponse is not alarming");
}

#[test]
fn status_408_maps_to_timeout() {
    let e = TaxonomyError::classify(408, None, String::new());
    assert_eq!(e, TaxonomyError::Timeout { secs: 0 });
}

#[test]
fn status_408_carries_retry_after_as_timeout_secs() {
    let e = TaxonomyError::classify(408, Some(30), String::new());
    assert_eq!(e, TaxonomyError::Timeout { secs: 30 });
    assert!(e.should_retry(), "timeout is retried, then chain advances");
    assert!(!e.should_alarm());
    assert_eq!(e.max_retries(), 1);
}

#[test]
fn status_500_maps_to_other() {
    let e = TaxonomyError::classify(500, None, "boom".into());
    assert_eq!(e, TaxonomyError::Other { status: Some(500), msg: "boom".into() });
    assert!(e.should_retry());
    assert!(!e.should_alarm());
}

#[test]
fn status_200_with_real_body_is_other_not_empty() {
    let e = TaxonomyError::classify(200, None, "{\"ok\":true}".into());
    assert!(matches!(e, TaxonomyError::Other { status: Some(200), .. }));
}

#[test]
fn only_auth_errors_alarm() {
    let cases = vec![
        TaxonomyError::classify(401, None, String::new()),
        TaxonomyError::classify(403, None, String::new()),
        TaxonomyError::classify(429, Some(1), String::new()),
        TaxonomyError::classify(429, None, String::new()),
        TaxonomyError::classify(408, None, String::new()),
        TaxonomyError::classify(200, None, String::new()),
        TaxonomyError::classify(500, None, String::new()),
        TaxonomyError::classify(503, None, String::new()),
        TaxonomyError::Other { status: None, msg: "connection reset".into() },
    ];
    for e in cases {
        let is_auth = matches!(e, TaxonomyError::AuthError { .. });
        assert_eq!(
            e.should_alarm(),
            is_auth,
            "should_alarm must be true iff AuthError, got {:?}",
            e
        );
    }
}

#[test]
fn only_auth_errors_are_non_retriable() {
    let cases = vec![
        TaxonomyError::classify(429, Some(1), String::new()),
        TaxonomyError::classify(408, Some(5), String::new()),
        TaxonomyError::classify(200, None, " ".into()),
        TaxonomyError::classify(500, None, String::new()),
        TaxonomyError::Other { status: None, msg: String::new() },
    ];
    for e in cases {
        assert!(e.should_retry(), "unexpected non-retriable error: {:?}", e);
    }
}

#[test]
fn display_mentions_policy() {
    let auth = TaxonomyError::classify(401, None, String::new());
    let display = auth.to_string().to_lowercase();
    assert!(display.contains("do not retry"), "auth display: {display}");
    assert!(display.contains("alarm"), "auth display: {display}");

    let rl = TaxonomyError::classify(429, Some(9), String::new());
    assert!(rl.to_string().to_lowercase().contains("back off"));

    let er = TaxonomyError::classify(200, None, String::new());
    assert!(er.to_string().contains("advance chain"));

    let to = TaxonomyError::classify(408, Some(2), String::new());
    assert!(to.to_string().to_lowercase().contains("timeout"));
}

#[test]
fn display_in_full() {
    assert_eq!(
        TaxonomyError::classify(401, None, "x".into()).to_string(),
        "auth error (401) — dead key, do not retry, alarm"
    );
    assert_eq!(
        TaxonomyError::classify(429, Some(9), "x".into()).to_string(),
        "rate limited — back off (retry after Some(9)s)"
    );
    assert_eq!(
        TaxonomyError::classify(200, None, "".into()).to_string(),
        "empty response — retry up to 2x then advance chain"
    );
    assert_eq!(
        TaxonomyError::classify(408, Some(2), "".into()).to_string(),
        "timeout after 2s — retry then advance chain"
    );
    assert_eq!(
        TaxonomyError::classify(500, None, "boom".into()).to_string(),
        "unclassified error (status Some(500)): boom"
    );
    assert_eq!(
        TaxonomyError::Other { status: None, msg: "reset".into() }.to_string(),
        "unclassified error (status None): reset"
    );
}

#[test]
fn unusual_white_space_is_blank() {
    let e = TaxonomyError::classify(200, None, "\u{a0}\u{3000}\u{2028}".into());
    assert_eq!(e, TaxonomyError::EmptyResponse);
    let e = TaxonomyError::classify(200, None, "\u{200b}".into());
    assert!(matches!(e, TaxonomyError::Other { .. }));
}

#[test]
fn lost_request_that_timed_out() {
    assert_eq!(
        TaxonomyError::of_failure(true, None, "late".into()),
        TaxonomyError::Timeout { secs: 0 }
    );
    assert_eq!(
        TaxonomyError::of_failure(false, Some(500), "broken".into()),
        TaxonomyError::Other { status: Some(500), msg: "broken".into() }
    );
}

#[test]
fn malformed_request_is_unclassified() {
    let e = reqwest::Client::new().get("no address").build().unwrap_err();
    let text = e.to_string();
    assert_eq!(TaxonomyError::from(e), TaxonomyError::Other { status: None, msg: text });
}

#[test]
fn error_status_is_kept() {
    let response = axum::http::Response::builder().status(502).body("").unwrap();
    let e = reqwest::Response::from(response).error_for_status().unwrap_err();
    let text = e.to_string();
    assert!(text.contains("502"));
    assert_eq!(TaxonomyError::from(e), TaxonomyError::Other { status: Some(502), msg: text });
}

struct NeverResolves;

impl reqwest::dns::Resolve for NeverResolves {
    fn resolve(&self, _: reqwest::dns::Name) -> reqwest::dns::Resolving {
        Box::pin(std::future::pending())
    }
}

#[test]
fn late_answer_is_a_timeout() {
    let runtime = tokio::runtime::Builder::new_current_thread().enable_all().build().unwrap();
    let e = runtime.block_on(async {
        reqwest::Client::builder()
            .no_proxy()
            .dns_resolver(std::sync::Arc::new(NeverResolves))
            .timeout(std::time::Duration::from_millis(50))
            .build()
            .unwrap()
            .get("http://upstream.invalid/")
            .send()
            .await
            .unwrap_err()
    });
    assert_eq!(TaxonomyError::from(e), TaxonomyError::Timeout { secs: 0 });
}
