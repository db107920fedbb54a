use fleet_gateway::error::ApiError;

#[test]
fn auth_not_retriable() {
    let err = ApiError::Auth {
        provider: "test".into(),
        status: 401,
        body: "bad key".into(),
    };
    assert!(!err.should_retry());
    assert!(err.is_breaker_failure());
}

#[test]
fn rate_limited_retriable() {
    let err = ApiError::RateLimited {
        provider: "test".into(),
        retry_after_secs: Some(5),
    };
    assert!(err.should_retry());
    assert!(err.is_breaker_failure());
}

#[test]
fn empty_response_retriable_not_breaker() {
    let err = ApiError::EmptyResponse { provider: "test".into() };
    assert!(err.should_retry());
    assert!(!err.is_breaker_failure());
}

#[test]
fn server_error_5xx_retriable() {
    let err = ApiError::ServerError {
        provider: "test".into(),
        status: 502,
        body: "bad gateway".into(),
    };
    assert!(err.should_retry());
    assert!(err.is_breaker_failure());
}

#[test]
fn server_error_below_500_not_retriable() {
    let err = ApiError::ServerError { provider: "p".into(), status: 499, body: "".into() };
    assert!(!err.should_retry());
    assert!(err.is_breaker_failure());
}

#[test]
fn lost_requests_retriable() {
    let timeout = ApiError::Timeout { provider: "p".into(), secs: 300 };
    let network = ApiError::NetworkError { provider: "p".into(), msg: "reset".into() };
    assert!(timeout.should_retry() && timeout.is_breaker_failure());
    assert!(network.should_retry() && network.is_breaker_failure());
}

#[test]
fn exhausted_chain_is_final() {
    let err = ApiError::AllProvidersExhausted;
    assert!(!err.should_retry());
    assert!(!err.is_breaker_failure());
}

#[test]
fn messages() {
    let p = || String::from("p");
    let cases = vec![
        (ApiError::Auth { provider: p(), status: 403, body: "b".into() }, "auth error on p (403)"),
        (
            ApiError::RateLimited { provider: p(), retry_after_secs: Some(120) },
            "rate limited on p (retry after Some(120)s)",
        ),
        (
            ApiError::RateLimited { provider: p(), retry_after_secs: None },
            "rate limited on p (retry after Nones)",
        ),
        (ApiError::EmptyResponse { provider: p() }, "empty response from p"),
        (ApiError::Timeout { provider: p(), secs: 300 }, "timeout on p (300s)"),
        (
            ApiError::ServerError { provider: p(), status: 500, body: "b".into() },
            "server error on p (500)",
        ),
        (
            ApiError::NetworkError { provider: p(), msg: "reset".into() },
            "network error on p: reset",
        ),
        (ApiError::AllProvidersExhausted, "all providers exhausted"),
    ];
    for (err, expected) in cases {
        assert_eq!(err.to_string(), expected);
    }
}
