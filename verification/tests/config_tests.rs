use authcore::config::{parse_decimal, AppConfig, ConfigError, ConfigVars, Setting, MAX_PORT};

fn some(text: &str) -> Option<String> {
    Some(String::from(text))
}

fn full_vars() -> ConfigVars {
    ConfigVars {
        database_host: some("db.local"),
        database_port: some("5432"),
        database_username: some("app"),
        database_password: some("SECRET-REDACTED"),
        database_name: some("catalog"),
        redis_host: some("kv.local"),
        redis_port: some("6379"),
        auth_token_ttl: some("86400"),
    }
}

#[test]
fn decimal_numbers_parse() {
    assert_eq!(parse_decimal("0", 10), Some(0));
    assert_eq!(parse_decimal("8080", MAX_PORT), Some(8080));
    assert_eq!(parse_decimal("+8080", MAX_PORT), Some(8080));
    assert_eq!(parse_decimal("0008080", MAX_PORT), Some(8080));
    assert_eq!(parse_decimal("65535", MAX_PORT), Some(65535));
    assert_eq!(parse_decimal("18446744073709551615", u64::MAX), Some(u64::MAX));
    assert_eq!(parse_decimal("5", 5), Some(5));
}

#[test]
fn malformed_or_large_numbers_do_not_parse() {
    assert_eq!(parse_decimal("", MAX_PORT), None);
    assert_eq!(parse_decimal("+", MAX_PORT), None);
    assert_eq!(parse_decimal("-1", MAX_PORT), None);
    assert_eq!(parse_decimal("++1", MAX_PORT), None);
    assert_eq!(parse_decimal("12a", MAX_PORT), None);
    assert_eq!(parse_decimal(" 12", MAX_PORT), None);
    assert_eq!(parse_decimal("12 ", MAX_PORT), None);
    assert_eq!(parse_decimal("65536", MAX_PORT), None);
    assert_eq!(parse_decimal("18446744073709551616", u64::MAX), None);
    assert_eq!(parse_decimal("99999999999999999999999", u64::MAX), None);
    assert_eq!(parse_decimal("6", 5), None);
    assert_eq!(parse_decimal("\u{664}", MAX_PORT), None);
}

#[test]
fn full_settings_read() {
    let config = AppConfig::new(full_vars()).unwrap();
    assert_eq!(config.database.host, "db.local");
    assert_eq!(config.database.port, 5432);
    assert_eq!(config.database.username, "app");
    assert_eq!(config.database.password, "SECRET-REDACTED");
    assert_eq!(config.database.database, "catalog");
    assert_eq!(config.redis.host, "kv.local");
    assert_eq!(config.redis.port, 6379);
    assert_eq!(config.auth.ttl, 86400);
}

#[test]
fn missing_setting_is_reported() {
    let mut vars = full_vars();
    vars.redis_host = None;
    assert_eq!(AppConfig::new(vars).err(), Some(ConfigError::Missing(Setting::RedisHost)));
    let mut vars = full_vars();
    vars.auth_token_ttl = None;
    assert_eq!(AppConfig::new(vars).err(), Some(ConfigError::Missing(Setting::AuthTokenTtl)));
    let mut vars = full_vars();
    vars.database_port = None;
    assert_eq!(AppConfig::new(vars).err(), Some(ConfigError::Missing(Setting::DatabasePort)));
}

#[test]
fn invalid_number_is_reported() {
    let mut vars = full_vars();
    vars.database_port = some("70000");
    assert_eq!(AppConfig::new(vars).err(), Some(ConfigError::Invalid(Setting::DatabasePort)));
    let mut vars = full_vars();
    vars.redis_port = some("six");
    assert_eq!(AppConfig::new(vars).err(), Some(ConfigError::Invalid(Setting::RedisPort)));
    let mut vars = full_vars();
    vars.auth_token_ttl = some("-5");
    assert_eq!(AppConfig::new(vars).err(), Some(ConfigError::Invalid(Setting::AuthTokenTtl)));
}

#[test]
fn first_failing_setting_in_reading_order_wins() {
    let mut vars = full_vars();
    vars.auth_token_ttl = some("x");
    vars.database_name = None;
    vars.database_port = some("x");
    assert_eq!(AppConfig::new(vars).err(), Some(ConfigError::Invalid(Setting::DatabasePort)));
    let mut vars = full_vars();
    vars.database_host = None;
    vars.database_port = None;
    assert_eq!(AppConfig::new(vars).err(), Some(ConfigError::Missing(Setting::DatabaseHost)));
    let mut vars = full_vars();
    vars.redis_port = some("x");
    vars.database_password = None;
    assert_eq!(AppConfig::new(vars).err(), Some(ConfigError::Missing(Setting::DatabasePassword)));
}
