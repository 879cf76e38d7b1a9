use idklol::env_config::{EnvConfigError, EnvLookup};
use idklol::logging::{LogFormat, LogLevel, LogOutput, LoggerConfig, LoggerServiceError};

#[test]
fn parses_log_level_values() {
    assert!(matches!(LogLevel::from_str("info"), Some(LogLevel::Info)));
    assert!(matches!(LogLevel::from_str("DEBUG"), Some(LogLevel::Debug)));
    assert!(LogLevel::from_str("trace").is_none());
}

#[test]
fn parses_log_output_values() {
    assert!(matches!(LogOutput::from_str("console"), Some(LogOutput::Console)));
    assert!(matches!(LogOutput::from_str("file"), Some(LogOutput::File)));
    assert!(matches!(LogOutput::from_str("both"), Some(LogOutput::Both)));
    assert!(LogOutput::from_str("stdout").is_none());
}

#[test]
fn parses_log_format_values() {
    assert!(matches!(LogFormat::from_str("plain"), Some(LogFormat::Plain)));
    assert!(matches!(LogFormat::from_str("json"), Some(LogFormat::Json)));
    assert!(matches!(LogFormat::from_str("bunyan"), Some(LogFormat::Json)));
    assert!(LogFormat::from_str("pretty").is_none());
}

#[test]
fn level_aliases_and_padding() {
    assert_eq!(LogLevel::from_str("  Warning "), Some(LogLevel::Warn));
    assert_eq!(LogLevel::from_str("warn"), Some(LogLevel::Warn));
    assert_eq!(LogLevel::from_str("ERROR"), Some(LogLevel::Error));
    assert_eq!(LogLevel::from_str(""), None);
}

#[test]
fn output_destinations() {
    assert!(LogOutput::Console.includes_console());
    assert!(!LogOutput::Console.includes_file());
    assert!(LogOutput::File.includes_file());
    assert!(!LogOutput::File.includes_console());
    assert!(LogOutput::Both.includes_console());
    assert!(LogOutput::Both.includes_file());
}

#[test]
fn logger_config_defaults_when_unset() {
    let config = LoggerConfig::from_env(
        EnvLookup::NotPresent,
        EnvLookup::NotPresent,
        EnvLookup::NotPresent,
        EnvLookup::NotPresent,
    )
    .expect("defaults should apply");
    assert_eq!(config.level, LogLevel::Info);
    assert_eq!(config.output, LogOutput::Console);
    assert_eq!(config.format, LogFormat::Plain);
    assert_eq!(config.file_path, "logs/service.log");
}

#[test]
fn logger_config_reads_values() {
    let config = LoggerConfig::from_env(
        EnvLookup::Present("debug".to_string()),
        EnvLookup::Present("Both".to_string()),
        EnvLookup::Present("bunyan".to_string()),
        EnvLookup::Present("/var/log/x.log".to_string()),
    )
    .expect("values are valid");
    assert_eq!(config.level, LogLevel::Debug);
    assert_eq!(config.output, LogOutput::Both);
    assert_eq!(config.format, LogFormat::Json);
    assert_eq!(config.file_path, "/var/log/x.log");
}

#[test]
fn logger_config_rejects_unknown_level_first() {
    let err = LoggerConfig::from_env(
        EnvLookup::Present("loud".to_string()),
        EnvLookup::Present("nowhere".to_string()),
        EnvLookup::NotPresent,
        EnvLookup::NotPresent,
    )
    .unwrap_err();
    match err {
        LoggerServiceError::InvalidConfig(message) => assert_eq!(
            message,
            "Invalid LOG_LEVEL `loud`. Use one of: error, warn, info, debug"
        ),
        other => panic!("unexpected error: {:?}", other),
    }
}

#[test]
fn logger_config_rejects_unknown_output_and_format() {
    let err = LoggerConfig::from_env(
        EnvLookup::NotPresent,
        EnvLookup::Present("stdout".to_string()),
        EnvLookup::NotPresent,
        EnvLookup::NotPresent,
    )
    .unwrap_err();
    match err {
        LoggerServiceError::InvalidConfig(message) => {
            assert_eq!(message, "Invalid LOG_OUTPUT `stdout`. Use one of: console, file, both")
        }
        other => panic!("unexpected error: {:?}", other),
    }
    let err = LoggerConfig::from_env(
        EnvLookup::NotPresent,
        EnvLookup::NotPresent,
        EnvLookup::Present("pretty".to_string()),
        EnvLookup::NotPresent,
    )
    .unwrap_err();
    match err {
        LoggerServiceError::InvalidConfig(message) => {
            assert_eq!(message, "Invalid LOG_FORMAT `pretty`. Use one of: plain, json")
        }
        other => panic!("unexpected error: {:?}", other),
    }
}

#[test]
fn logger_config_reports_unreadable_variable() {
    let err = LoggerConfig::from_env(
        EnvLookup::NotUnicode,
        EnvLookup::NotPresent,
        EnvLookup::NotPresent,
        EnvLookup::NotPresent,
    )
    .unwrap_err();
    match err {
        LoggerServiceError::Env(EnvConfigError::InvalidVar { key, value, message }) => {
            assert_eq!(key, "LOG_LEVEL");
            assert_eq!(value, "<non-unicode>");
            assert_eq!(message, "value is not valid unicode");
        }
        other => panic!("unexpected error: {:?}", other),
    }
}
