use fleet_gateway::client::{
    provider_base_url, provider_env_key, ClientError, FleetGwClient, GatewayOutcome,
};

#[test]
fn base_urls_match_known_providers() {
    assert_eq!(provider_base_url("zai"), Some("https://api.z.ai/api/paas/v4"));
    assert_eq!(provider_base_url("deepseek"), Some("https://api.deepseek.com/v1"));
    assert_eq!(
        provider_base_url("deepinfra"),
        Some("https://api.deepinfra.com/v1/openai")
    );
    assert_eq!(provider_base_url("ollama"), None);
}

#[test]
fn unknown_provider_direct_yields_no_route() {
    let client = FleetGwClient::new("http://127.0.0.1:59999");
    assert!(!GatewayOutcome::Unreachable.settles());
    let err = client.direct_call("bogus", "/v1/chat/completions", None).unwrap_err();
    assert!(matches!(err, ClientError::NoDirectRoute { .. }));
    assert_eq!(
        err.to_string(),
        "gateway unreachable (gateway unreachable) and no direct route for provider 'bogus'"
    );
}

#[test]
fn key_variables_match_known_providers() {
    assert_eq!(provider_env_key("zai"), Some("ZAI_API_KEY"));
    assert_eq!(provider_env_key("deepseek"), Some("DEEPSEEK_API_KEY"));
    assert_eq!(provider_env_key("deepinfra"), Some("DEEPINFRA_API_KEY"));
    assert_eq!(provider_env_key("ollama"), None);
}

#[test]
fn gateway_addresses() {
    assert_eq!(FleetGwClient::new("http://g:1//").gateway_address("/v1/x"), "http://g:1/v1/x");
    assert_eq!(FleetGwClient::default().gateway_address("/v1"), "http://127.0.0.1:8787/v1");
}

#[test]
fn direct_calls() {
    let client = FleetGwClient::default();
    let call = client.direct_call("deepseek", "/chat", Some("sk".into())).unwrap();
    assert_eq!(call.url, "https://api.deepseek.com/v1/chat");
    assert_eq!(call.bearer.as_deref(), Some("sk"));
    assert_eq!(client.direct_call("zai", "/", Some("".into())).unwrap().bearer, None);
    assert_eq!(client.direct_call("zai", "/", None).unwrap().bearer, None);
}

#[test]
fn only_a_readable_success_settles() {
    assert!(GatewayOutcome::Answered { status: 200, readable: true }.settles());
    assert!(GatewayOutcome::Answered { status: 299, readable: true }.settles());
    assert!(!GatewayOutcome::Answered { status: 200, readable: false }.settles());
    assert!(!GatewayOutcome::Answered { status: 300, readable: true }.settles());
    assert!(!GatewayOutcome::Answered { status: 199, readable: true }.settles());
    assert!(!GatewayOutcome::Answered { status: 503, readable: true }.settles());
    assert!(!GatewayOutcome::Failed.settles());
}

#[test]
fn client_errors_in_full() {
    assert_eq!(
        ClientError::direct_call_failed("zai", "refused").to_string(),
        "gateway and direct call failed: direct zai call failed: refused"
    );
    assert_eq!(
        ClientError::direct_answer_unreadable("zai", "200 OK", "eof").to_string(),
        "gateway and direct call failed: direct zai returned 200 OK with unparseable body: eof"
    );
}
