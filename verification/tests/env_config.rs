use idklol::env_config::{
    EnvConfig, EnvConfigError, EnvLookup, DEFAULT_KEYCLOAK_PUBLIC_KEY_CACHE_TTL_SECONDS,
    DEFAULT_STARTUP_RETRY_INITIAL_DELAY_MS, DEFAULT_STARTUP_RETRY_MAX_ATTEMPTS,
    DEFAULT_STARTUP_RETRY_MAX_DELAY_MS,
};
use std::time::{SystemTime, UNIX_EPOCH};

fn unique_missing_key(prefix: &str) -> String {
    let nanos = SystemTime::now()
        .duration_since(UNIX_EPOCH)
        .expect("system time before unix epoch")
        .as_nanos();
    format!("{prefix}_{nanos}")
}

fn present(value: &str) -> EnvLookup {
    EnvLookup::Present(value.to_string())
}

#[test]
fn get_optional_returns_none_for_missing_key() {
    let key = unique_missing_key("OPTIONAL_ENV_MISSING_TEST");
    let value = EnvConfig::get_optional(&key, EnvLookup::NotPresent)
        .expect("get_optional should not error");
    assert!(value.is_none());
}

#[test]
fn get_required_returns_missing_error_for_missing_key() {
    let key = unique_missing_key("REQUIRED_ENV_MISSING_TEST");
    let result = EnvConfig::get_required(&key, EnvLookup::NotPresent);
    match result {
        Err(EnvConfigError::MissingVar { key: missing_key }) => {
            assert_eq!(missing_key, key);
        }
        other => panic!("expected MissingVar error, got: {:?}", other),
    }
}

#[test]
fn get_optional_parsed_returns_none_for_missing_key() {
    let key = unique_missing_key("OPTIONAL_PARSED_ENV_MISSING_TEST");
    let value = EnvConfig::get_optional_parsed::<u16>(&key, EnvLookup::NotPresent)
        .expect("get_optional_parsed should not error for missing var");
    assert!(value.is_none());
}

#[test]
fn keycloak_public_key_cache_ttl_uses_default_when_env_missing() {
    let ttl = EnvConfig::get_keycloak_public_key_cache_ttl_seconds(EnvLookup::NotPresent);
    assert_eq!(ttl, DEFAULT_KEYCLOAK_PUBLIC_KEY_CACHE_TTL_SECONDS);
}

#[test]
fn required_and_optional_values() {
    assert_eq!(EnvConfig::get_required("K", present("v")).unwrap(), "v");
    assert_eq!(
        EnvConfig::get_optional("K", present("")).unwrap(),
        Some(String::new())
    );
    match EnvConfig::get_optional("K", EnvLookup::NotUnicode) {
        Err(EnvConfigError::InvalidVar { key, value, message }) => {
            assert_eq!(key, "K");
            assert_eq!(value, "<non-unicode>");
            assert_eq!(message, "value is not valid unicode");
        }
        other => panic!("unexpected: {:?}", other),
    }
}

#[test]
fn parsed_values_follow_integer_syntax() {
    assert_eq!(EnvConfig::get_required_parsed::<u16>("P", present("8080")).unwrap(), 8080);
    assert_eq!(EnvConfig::get_required_parsed::<u32>("P", present("+17")).unwrap(), 17);
    assert_eq!(
        EnvConfig::get_optional_parsed::<u64>("P", present("0")).unwrap(),
        Some(0)
    );
    assert_eq!(
        EnvConfig::get_required_parsed::<u64>("P", present("18446744073709551615")).unwrap(),
        u64::MAX
    );
}

#[test]
fn parse_errors_carry_the_integer_error_text() {
    let cases: [(&str, &str); 6] = [
        ("", "cannot parse integer from empty string"),
        ("+", "invalid digit found in string"),
        ("-1", "invalid digit found in string"),
        ("12a", "invalid digit found in string"),
        (" 5", "invalid digit found in string"),
        ("65536", "number too large to fit in target type"),
    ];
    for (raw, expected) in cases {
        match EnvConfig::get_required_parsed::<u16>("PORT", present(raw)) {
            Err(EnvConfigError::InvalidVar { key, value, message }) => {
                assert_eq!(key, "PORT");
                assert_eq!(value, raw);
                assert_eq!(message, expected);
            }
            other => panic!("unexpected for {raw:?}: {:?}", other),
        }
    }
    match EnvConfig::get_required_parsed::<u16>("PORT", EnvLookup::NotPresent) {
        Err(EnvConfigError::MissingVar { key }) => assert_eq!(key, "PORT"),
        other => panic!("unexpected: {:?}", other),
    }
}

#[test]
fn error_messages() {
    let missing = EnvConfigError::MissingVar { key: "DATABASE_URL".to_string() };
    assert_eq!(
        missing.message(),
        "Required environment variable `DATABASE_URL` is missing"
    );
    let invalid = EnvConfigError::InvalidVar {
        key: "PORT".to_string(),
        value: "x".to_string(),
        message: "invalid digit found in string".to_string(),
    };
    assert_eq!(
        invalid.message(),
        "Invalid value for environment variable `PORT`: `x` (invalid digit found in string)"
    );
}

#[test]
fn startup_retry_settings_fall_back_to_defaults() {
    assert_eq!(
        EnvConfig::get_startup_retry_max_attempts(EnvLookup::NotPresent),
        DEFAULT_STARTUP_RETRY_MAX_ATTEMPTS
    );
    assert_eq!(EnvConfig::get_startup_retry_max_attempts(present("0")), 30);
    assert_eq!(EnvConfig::get_startup_retry_max_attempts(present("5")), 5);
    assert_eq!(
        EnvConfig::get_startup_retry_initial_delay_ms(present("abc")),
        DEFAULT_STARTUP_RETRY_INITIAL_DELAY_MS
    );
    assert_eq!(EnvConfig::get_startup_retry_initial_delay_ms(present("250")), 250);
    assert_eq!(
        EnvConfig::get_startup_retry_max_delay_ms(EnvLookup::NotUnicode),
        DEFAULT_STARTUP_RETRY_MAX_DELAY_MS
    );
    assert_eq!(EnvConfig::get_keycloak_public_key_cache_ttl_seconds(present("0")), 0);
    assert_eq!(EnvConfig::get_keycloak_public_key_cache_ttl_seconds(present("-5")), 300);
}
