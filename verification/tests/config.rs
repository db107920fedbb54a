use fleet_gateway::config::{
    config_path, key_list_variable_name, override_keys, single_key_variable_name, variable,
    ChainConfig, CircuitBreakerConfig, Config, ProviderConfig, ProviderTable, RateLimitConfig,
    ServerConfig,
};

fn strings(value: &toml::Value) -> Vec<String> {
    value.as_array().unwrap().iter().map(|v| v.as_str().unwrap().to_string()).collect()
}

fn read(raw: &str) -> Config {
    let table: toml::Table = raw.parse().unwrap();
    let breaker = &table["circuit_breaker"];
    let limits = &table["rate_limit"];
    let mut providers = ProviderTable::new();
    for (name, p) in table["providers"].as_table().unwrap() {
        providers.insert(
            name.clone(),
            ProviderConfig {
                base_url: p["base_url"].as_str().unwrap().into(),
                keys: strings(&p["keys"]),
                models: strings(&p["models"]),
            },
        );
    }
    Config {
        server: ServerConfig { listen: table["server"]["listen"].as_str().unwrap().into() },
        circuit_breaker: CircuitBreakerConfig {
            failure_threshold: breaker["failure_threshold"].as_integer().unwrap() as u32,
            cooldown_secs: breaker["cooldown_secs"].as_integer().unwrap() as u64,
            success_threshold: breaker["success_threshold"].as_integer().unwrap() as u32,
        },
        rate_limit: RateLimitConfig {
            max_retries: limits["max_retries"].as_integer().unwrap() as u32,
            initial_backoff_ms: limits["initial_backoff_ms"].as_integer().unwrap() as u64,
        },
        providers,
        chain: ChainConfig { order: strings(&table["chain"]["order"]) },
    }
}

const RAW: &str = r#"
[server]
listen = "127.0.0.1:8787"

[circuit_breaker]
failure_threshold = 5
cooldown_secs = 60
success_threshold = 2

[rate_limit]
max_retries = 2
initial_backoff_ms = 500

[providers.deepinfra]
base_url = "https://api.deepinfra.com/v1/openai"
keys = ["test-key"]
models = ["Qwen/Qwen3-Coder-480B"]

[providers.ollama]
base_url = "http://localhost:11434/v1"
keys = []
models = ["granite3.1-dense:2b"]

[chain]
order = ["deepinfra", "ollama"]
"#;

fn env(pairs: &[(&str, &str)]) -> Vec<(String, String)> {
    pairs.iter().map(|(n, v)| (n.to_string(), v.to_string())).collect()
}

fn keys_of(config: &Config, name: &str) -> Vec<String> {
    config.providers.get(name).unwrap().keys.clone()
}

#[test]
fn test_config_parses() {
    let config = read(RAW);
    assert_eq!(config.server.listen, "127.0.0.1:8787");
    assert_eq!(config.providers.len(), 2);
    assert_eq!(config.chain.order, vec!["deepinfra", "ollama"]);
}

#[test]
fn inserting_replaces() {
    let provider = |url: &str| ProviderConfig { base_url: url.into(), keys: vec![], models: vec![] };
    let mut table = ProviderTable::new();
    assert_eq!(table.len(), 0);
    table.insert("a".into(), provider("1"));
    table.insert("b".into(), provider("2"));
    table.insert("a".into(), provider("3"));
    assert_eq!(table.len(), 2);
    assert_eq!(table.get("a").unwrap().base_url, "3");
    assert_eq!(table.get("b").unwrap().base_url, "2");
    assert!(table.get("c").is_none());
    assert_eq!(table.name(1), "b");
    assert_eq!(table.settings(1).base_url, "2");
}

#[test]
fn variable_names() {
    assert_eq!(key_list_variable_name("deepinfra"), "FLEET_GATEWAY__PROVIDERS__DEEPINFRA__KEYS");
    assert_eq!(single_key_variable_name("z.ai-2"), "Z.AI-2_API_KEY");
    assert_eq!(single_key_variable_name("straße"), "STRASSE_API_KEY");
}

#[test]
fn first_variable_of_a_name_counts() {
    let vars = env(&[("A", "1"), ("B", "2"), ("A", "3")]);
    assert_eq!(variable(&vars, "A").map(|s| s.as_str()), Some("1"));
    assert_eq!(variable(&vars, "B").map(|s| s.as_str()), Some("2"));
    assert_eq!(variable(&vars, "C"), None);
}

#[test]
fn key_list_replaces_the_keys_of_the_file() {
    let mut config = read(RAW);
    config.apply_environment(&env(&[
        ("FLEET_GATEWAY__PROVIDERS__DEEPINFRA__KEYS", "key1, key2 ,key3"),
        ("DEEPINFRA_API_KEY", "single"),
    ]));
    assert_eq!(keys_of(&config, "deepinfra"), vec!["key1", "key2", "key3"]);
    assert_eq!(keys_of(&config, "ollama"), Vec::<String>::new());
    assert_eq!(config.providers.get("deepinfra").unwrap().models, vec!["Qwen/Qwen3-Coder-480B"]);
    assert_eq!(
        config.providers.get("deepinfra").unwrap().base_url,
        "https://api.deepinfra.com/v1/openai"
    );
}

#[test]
fn single_key_replaces_the_keys_of_the_file() {
    let mut config = read(RAW);
    config.apply_environment(&env(&[("OLLAMA_API_KEY", "one"), ("DEEPINFRA_API_KEY", "two")]));
    assert_eq!(keys_of(&config, "ollama"), vec!["one"]);
    assert_eq!(keys_of(&config, "deepinfra"), vec!["two"]);
}

#[test]
fn empty_values_do_not_count() {
    let keys = vec![String::from("k")];
    let none: Vec<String> = vec![];
    let list = |s: &str| s.to_string();
    assert_eq!(override_keys(&keys, Some(&list("")), None), vec!["k"]);
    assert_eq!(override_keys(&keys, Some(&list(" ,a")), None), vec!["k"]);
    assert_eq!(override_keys(&keys, Some(&list("a,")), None), vec!["a", ""]);
    assert_eq!(override_keys(&none, None, Some(&list(""))), Vec::<String>::new());
    assert_eq!(override_keys(&keys, None, Some(&list(""))), vec!["k"]);
    assert_eq!(override_keys(&none, Some(&list("")), Some(&list(" s "))), vec![" s "]);
    assert_eq!(override_keys(&keys, Some(&list(" ,a")), Some(&list("s"))), vec!["s"]);
    assert_eq!(override_keys(&keys, None, None), vec!["k"]);
}

#[test]
fn where_the_file_is() {
    assert_eq!(config_path(Some("/etc/g.toml".into()), true), "/etc/g.toml");
    assert_eq!(config_path(None, true), "fleet-gateway.toml");
    assert_eq!(config_path(None, false), "config/fleet-gateway.toml");
}
