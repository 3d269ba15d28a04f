use telemetry_core::config::{Config, ConfigError};

fn s(v: &str) -> Option<String> {
    Some(v.to_string())
}

fn load(port: Option<String>, app_port: Option<String>) -> Result<Config, ConfigError> {
    Config::from_env_values(s("postgres://db"), s("redis://r"), s("key"), None, None, None, port, app_port)
}

#[test]
fn defaults_apply() {
    let c = load(None, None).unwrap();
    assert_eq!(c.database_url, "postgres://db");
    assert_eq!(c.redis_url, "redis://r");
    assert_eq!(c.quant_api_key, "key");
    assert_eq!(c.quant_api_base_url, "https://api.example.com/v1");
    assert_eq!(c.lambda_labs_api_key, None);
    assert_eq!(c.app_host, "0.0.0.0");
    assert_eq!(c.app_port, 8080);
}

#[test]
fn port_wins_over_app_port() {
    assert_eq!(load(s("3000"), s("4000")).unwrap().app_port, 3000);
    assert_eq!(load(None, s("4000")).unwrap().app_port, 4000);
    assert_eq!(load(s("+65535"), None).unwrap().app_port, 65535);
}

#[test]
fn bad_ports_are_refused() {
    for bad in ["", "+", "-1", "65536", " 80", "8o", "80 "] {
        let err = load(s(bad), None).unwrap_err();
        assert_eq!(err, ConfigError::InvalidPort);
        assert_eq!(err.message(), "APP_PORT must be a valid number");
    }
}

#[test]
fn required_variables_in_order() {
    let e = Config::from_env_values(None, None, None, None, None, None, s("x"), None).unwrap_err();
    assert_eq!(e, ConfigError::MissingDatabaseUrl);
    assert_eq!(e.message(), "DATABASE_URL must be set — get it from Railway PostgreSQL");
    let e = Config::from_env_values(s("a"), None, None, None, None, None, None, None).unwrap_err();
    assert_eq!(e, ConfigError::MissingRedisUrl);
    assert_eq!(e.message(), "REDIS_URL must be set — get it from Railway Redis");
    let e = Config::from_env_values(s("a"), s("b"), None, None, None, None, None, None).unwrap_err();
    assert_eq!(e, ConfigError::MissingQuantApiKey);
    assert_eq!(e.message(), "QUANT_API_KEY must be set");
}

#[test]
fn optional_values_are_kept() {
    let c = Config::from_env_values(
        s("a"),
        s("b"),
        s("c"),
        s("https://quant.example/v2"),
        s("lambda"),
        s("127.0.0.1"),
        None,
        None,
    )
    .unwrap();
    assert_eq!(c.quant_api_base_url, "https://quant.example/v2");
    assert_eq!(c.lambda_labs_api_key.as_deref(), Some("lambda"));
    assert_eq!(c.app_host, "127.0.0.1");
}
