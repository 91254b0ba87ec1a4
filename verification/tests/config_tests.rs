use system_repair_toolkit::config::{Config, ConfigError, LevelFilter};

#[test]
fn test_default_config() {
    let config = Config::default();
    assert_eq!(config.auto_restart, false);
    assert_eq!(config.verbose, true);
    assert_eq!(config.log_level, "info");
    assert_eq!(config.confirm_actions, true);
    assert_eq!(config.timeout_seconds, 30);
}

#[test]
fn test_config_validation() {
    let mut config = Config::default();
    assert!(config.validate().is_ok());

    // Test invalid log level
    config.log_level = "invalid".to_string();
    assert!(config.validate().is_err());

    // Test invalid timeout
    config.log_level = "info".to_string();
    config.timeout_seconds = 0;
    assert!(config.validate().is_err());

    config.timeout_seconds = 5000;
    assert!(config.validate().is_err());
}

#[test]
fn test_log_filter_conversion() {
    let mut config = Config::default();

    config.log_level = "debug".to_string();
    assert_eq!(config.get_log_filter(), LevelFilter::Debug);

    config.log_level = "error".to_string();
    assert_eq!(config.get_log_filter(), LevelFilter::Error);
}

#[test]
fn default_values_in_full() {
    let config = Config::default();
    assert!(config.show_progress);
    assert_eq!(config.max_retries, 2);
    assert_eq!(config.validate(), Ok(()));
    assert_eq!(config.get_log_filter(), LevelFilter::Info);
}

#[test]
fn validation_errors_and_bounds() {
    let mut config = Config::default();
    config.log_level = "verbose".to_string();
    assert_eq!(
        config.validate(),
        Err(ConfigError::InvalidLogLevel("verbose".to_string()))
    );
    config.log_level = "INFO".to_string();
    assert!(config.validate().is_err());
    config.log_level = "warn".to_string();
    config.timeout_seconds = 0;
    assert_eq!(config.validate(), Err(ConfigError::ZeroTimeout));
    config.timeout_seconds = 3601;
    assert_eq!(config.validate(), Err(ConfigError::TimeoutTooLong));
    config.timeout_seconds = 3600;
    assert_eq!(config.validate(), Ok(()));
    config.timeout_seconds = 1;
    assert_eq!(config.validate(), Ok(()));
    // The log level is checked before the timeout.
    config.log_level = "loud".to_string();
    config.timeout_seconds = 0;
    assert_eq!(
        config.validate(),
        Err(ConfigError::InvalidLogLevel("loud".to_string()))
    );
}

#[test]
fn config_error_messages() {
    assert_eq!(
        ConfigError::InvalidLogLevel("loud".to_string()).to_string(),
        "Invalid log_level 'loud'. Must be one of: trace, debug, info, warn, error"
    );
    assert_eq!(ConfigError::ZeroTimeout.to_string(), "timeout_seconds must be greater than 0");
    assert_eq!(
        ConfigError::TimeoutTooLong.to_string(),
        "timeout_seconds must not exceed 3600 (1 hour)"
    );
}

#[test]
fn every_level_name_selects_its_filter() {
    let mut config = Config::default();
    for (name, filter) in [
        ("trace", LevelFilter::Trace),
        ("debug", LevelFilter::Debug),
        ("info", LevelFilter::Info),
        ("warn", LevelFilter::Warn),
        ("error", LevelFilter::Error),
        ("nonsense", LevelFilter::Info),
        ("", LevelFilter::Info),
    ] {
        config.log_level = name.to_string();
        assert_eq!(config.get_log_filter(), filter);
    }
}
