use lite_rpc_relay::{Config, ConfigError, EnvOverrides};

fn base() -> Config {
    Config {
        rpc_addr: Config::default_rpc_addr(),
        ws_addr: Config::default_ws_addr(),
        lite_rpc_http_addr: Config::default_lite_rpc_http_addr(),
        lite_rpc_ws_addr: Config::default_lite_rpc_ws_addr(),
        fanout_size: Config::default_fanout_size(),
        enable_postgres: false,
        identity_keypair: None,
        prometheus_addr: Config::default_prometheus_addr(),
        maximum_retries_per_tx: Config::default_maximum_retries_per_tx(),
        transaction_retry_after_secs: Config::default_transaction_retry_after_secs(),
        quic_proxy_addr: Some("old-proxy".to_string()),
        use_grpc: false,
        grpc_addr: Config::default_grpc_addr(),
        grpc_x_token: Some("token".to_string()),
    }
}

fn no_env() -> EnvOverrides {
    EnvOverrides {
        rpc_addr: None,
        ws_addr: None,
        lite_rpc_http_addr: None,
        lite_rpc_ws_addr: None,
        fanout_size: None,
        pg_enabled: false,
        identity: None,
        prometheus_addr: None,
        max_retries: None,
        retry_timeout: None,
        quic_proxy_addr: None,
        use_grpc: false,
        grpc_addr: None,
        grpc_x_token: None,
    }
}

#[test]
fn default_addresses() {
    assert_eq!(Config::lite_rpc_ws_addr(), "[::]:8891");
    assert_eq!(Config::default_lite_rpc_http_addr(), "[::]:8890");
    assert_eq!(Config::default_lite_rpc_ws_addr(), "[::]:8891");
    assert_eq!(Config::default_prometheus_addr(), "[::]:9091");
    assert_eq!(Config::default_rpc_addr(), "http://0.0.0.0:8899");
    assert_eq!(Config::default_ws_addr(), "ws://0.0.0.0:8900");
    assert_eq!(Config::default_grpc_addr(), "http://127.0.0.0:10000");
}

#[test]
fn default_numbers() {
    assert_eq!(Config::default_fanout_size(), 10);
    assert_eq!(Config::default_maximum_retries_per_tx(), 40);
    assert_eq!(Config::default_transaction_retry_after_secs(), 2);
}

#[test]
fn unset_environment_keeps_fields_but_clears_proxy() {
    let c = base().with_env_overrides(no_env()).unwrap();
    assert_eq!(c.rpc_addr, "http://0.0.0.0:8899");
    assert_eq!(c.fanout_size, 10);
    assert_eq!(c.grpc_x_token, Some("token".to_string()));
    assert_eq!(c.quic_proxy_addr, None);
    assert!(!c.use_grpc);
}

#[test]
fn set_variables_replace_fields() {
    let mut env = no_env();
    env.rpc_addr = Some("http://node:8899".to_string());
    env.fanout_size = Some("+32".to_string());
    env.max_retries = Some("7".to_string());
    env.retry_timeout = Some("15".to_string());
    env.pg_enabled = true;
    env.use_grpc = true;
    env.identity = Some("id.json".to_string());
    env.quic_proxy_addr = Some("proxy:1".to_string());
    let c = base().with_env_overrides(env).unwrap();
    assert_eq!(c.rpc_addr, "http://node:8899");
    assert_eq!(c.fanout_size, 32);
    assert_eq!(c.maximum_retries_per_tx, 7);
    assert_eq!(c.transaction_retry_after_secs, 15);
    assert!(c.enable_postgres);
    assert!(c.use_grpc);
    assert_eq!(c.identity_keypair, Some("id.json".to_string()));
    assert_eq!(c.quic_proxy_addr, Some("proxy:1".to_string()));
    assert_eq!(c.ws_addr, "ws://0.0.0.0:8900");
}

#[test]
fn malformed_numbers_are_rejected() {
    let mut env = no_env();
    env.fanout_size = Some("ten".to_string());
    assert_eq!(base().with_env_overrides(env).unwrap_err(), ConfigError::InvalidFanoutSize);
    let mut env = no_env();
    env.max_retries = Some("-1".to_string());
    assert_eq!(base().with_env_overrides(env).unwrap_err(), ConfigError::InvalidMaxRetries);
    let mut env = no_env();
    env.retry_timeout = Some("".to_string());
    assert_eq!(base().with_env_overrides(env).unwrap_err(), ConfigError::InvalidRetryTimeout);
    let mut env = no_env();
    env.fanout_size = Some("18446744073709551616".to_string());
    assert_eq!(base().with_env_overrides(env).unwrap_err(), ConfigError::InvalidFanoutSize);
}
