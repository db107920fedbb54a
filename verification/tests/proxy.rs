use fleet_gateway::error::ApiError;
use fleet_gateway::proxy::{
    error_reply, extract_model, forwarded_headers, forwarded_status, is_forwarded, model_of,
    Endpoint, FieldValue, Header, JsonMember,
};

#[test]
fn model_of_a_request() {
    let model = |body: &str| extract_model(body.as_bytes());
    assert_eq!(model(r#"{"model": "deepseek-chat", "messages": []}"#).as_deref(), Some("deepseek-chat"));
    assert_eq!(model(r#"{"a": {"model": "inner"}, "model": "outer"}"#).as_deref(), Some("outer"));
    assert_eq!(model(r#"{"model": "a", "model": "b"}"#).as_deref(), Some("b"));
    assert_eq!(model(r#"{"model": 7}"#), None);
    assert_eq!(model(r#"{"model": null}"#), None);
    assert_eq!(model(r#"{"messages": []}"#), None);
    assert_eq!(model(r#"["model", "x"]"#), None);
    assert_eq!(model(r#""model""#), None);
    assert_eq!(model("{broken"), None);
    assert_eq!(model(""), None);
    assert_eq!(extract_model(&[0xff, 0xfe]), None);
}

#[test]
fn model_among_members() {
    let member = |name: &str, text: Option<&str>| JsonMember {
        name: name.into(),
        text: text.map(|t| t.to_string()),
    };
    assert_eq!(model_of(&vec![]), None);
    assert_eq!(
        model_of(&vec![member("a", Some("x")), member("model", Some("m"))]).as_deref(),
        Some("m")
    );
    assert_eq!(model_of(&vec![member("model", None)]), None);
}

#[test]
fn endpoint_paths() {
    assert_eq!(Endpoint::ChatCompletions.upstream_path(), "/chat/completions");
    assert_eq!(Endpoint::Embeddings.upstream_path(), "/embeddings");
    assert_eq!(Endpoint::AudioSpeech.upstream_path(), "/audio/speech");
    assert_eq!(Endpoint::Other("images/generations".into()).upstream_path(), "/images/generations");
}

#[test]
fn status_is_passed_on() {
    for status in [100u16, 200, 404, 599, 999] {
        assert_eq!(forwarded_status(status), status);
    }
    assert_eq!(forwarded_status(0), 200);
    assert_eq!(forwarded_status(99), 200);
    assert_eq!(forwarded_status(1000), 200);
}

#[test]
fn headers_are_filtered() {
    let header = |name: &str, value: &str| Header { name: name.into(), value: value.into() };
    let out = forwarded_headers(&vec![
        header("content-type", "text/plain"),
        header("set-cookie", "secret"),
        header("x-request-id", "1"),
        header("server", "x"),
        header("x-request-id", "2"),
    ]);
    let pairs: Vec<(&str, &[u8])> = out.iter().map(|h| (h.name.as_str(), h.value.as_slice())).collect();
    assert_eq!(pairs.len(), 2);
    assert!(pairs.contains(&("content-type", b"text/plain".as_slice())));
    assert!(pairs.contains(&("x-request-id", b"2".as_slice())));
    for name in [
        "content-type", "content-length", "transfer-encoding", "cache-control", "x-request-id",
        "openai-organization", "openai-processing-ms", "openai-version",
    ] {
        assert!(is_forwarded(name), "{name}");
    }
    for name in ["authorization", "set-cookie", "Content-Type", ""] {
        assert!(!is_forwarded(name), "{name}");
    }
}

#[test]
fn answers_in_full() {
    let p = || String::from("p");
    let text = |s: &str| FieldValue::Text(s.into());
    let cases = vec![
        (
            ApiError::Auth { provider: p(), status: 403, body: "b".into() },
            vec![
                ("type", text("auth_error")),
                ("provider", text("p")),
                ("status", FieldValue::Number(403)),
                ("detail", text("b")),
            ],
        ),
        (
            ApiError::Auth { provider: p(), status: 42, body: "".into() },
            vec![
                ("type", text("auth_error")),
                ("provider", text("p")),
                ("status", FieldValue::Number(42)),
                ("detail", text("")),
            ],
        ),
        (
            ApiError::RateLimited { provider: p(), retry_after_secs: Some(9) },
            vec![
                ("type", text("rate_limited")),
                ("provider", text("p")),
                ("retry_after_secs", FieldValue::Number(9)),
            ],
        ),
        (
            ApiError::RateLimited { provider: p(), retry_after_secs: None },
            vec![
                ("type", text("rate_limited")),
                ("provider", text("p")),
                ("retry_after_secs", FieldValue::Null),
            ],
        ),
        (
            ApiError::Timeout { provider: p(), secs: 300 },
            vec![
                ("type", text("timeout")),
                ("provider", text("p")),
                ("timeout_secs", FieldValue::Number(300)),
            ],
        ),
        (
            ApiError::ServerError { provider: p(), status: 500, body: "b".into() },
            vec![
                ("type", text("server_error")),
                ("provider", text("p")),
                ("status", FieldValue::Number(500)),
                ("detail", text("b")),
            ],
        ),
        (
            ApiError::NetworkError { provider: p(), msg: "m".into() },
            vec![("type", text("network_error")), ("provider", text("p")), ("detail", text("m"))],
        ),
        (
            ApiError::EmptyResponse { provider: p() },
            vec![("type", text("empty_response")), ("provider", text("p"))],
        ),
        (
            ApiError::AllProvidersExhausted,
            vec![
                ("type", text("all_providers_exhausted")),
                ("message", text("no provider could fulfill this request")),
            ],
        ),
    ];
    for (e, fields) in cases {
        let reply = error_reply(&e);
        assert_eq!(reply.status, 503);
        let got: Vec<(&str, FieldValue)> =
            reply.fields.into_iter().map(|f| (f.name, f.value)).collect();
        assert_eq!(got, fields);
    }
}
