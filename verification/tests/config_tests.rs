use crabdrive_server::config::{
    classify_log_target, is_valid_log_level, logging_level, parse_list, AppConfig, Environment,
    LogLevel, LogTarget,
};

#[test]
fn log_levels() {
    for level in ["TRACE", "DEBUG", "INFO", "WARN", "ERROR", "NONE"] {
        assert_eq!(is_valid_log_level(&level.to_string()), Ok(()));
    }
    for level in ["trace", "", "WARNING", " INFO"] {
        assert_eq!(is_valid_log_level(&level.to_string()), Err("Invalid log level".to_string()));
    }
}

#[test]
fn lists_are_split_and_trimmed() {
    assert_eq!(parse_list(":stdout:, /var/log/ ,x.json").unwrap(), vec![":stdout:", "/var/log/", "x.json"]);
    assert_eq!(parse_list("").unwrap(), vec![""]);
    assert_eq!(parse_list(" a ,,b,").unwrap(), vec!["a", "", "b", ""]);
    assert_eq!(parse_list("\u{3000}x\t\n").unwrap(), vec!["x"]);
    assert_eq!(parse_list("single").unwrap(), vec!["single"]);
}

#[test]
fn defaults() {
    let debug = AppConfig::default_values(Environment::Dev);
    assert_eq!(debug.env, Environment::Dev);
    assert!(debug.is_dev());
    assert!(!debug.is_prod());
    assert_eq!(debug.addr(), "127.0.0.1:2722");
    assert_eq!(debug.db.path, ":memory:");
    assert_eq!(debug.db.pool_size, 15);
    assert_eq!(debug.storage.dir, ":memory:");
    assert_eq!(debug.storage.limit, 500_000_000);
    assert_eq!(debug.log.minimum_level, "TRACE");
    assert_eq!(debug.log.targets, vec![":stdout:".to_string()]);

    let release = AppConfig::default_values(Environment::Prod);
    assert_eq!(release.env, Environment::Prod);
    assert!(release.is_prod());
    assert_eq!(release.log.minimum_level, "WARN");
    assert_eq!(release.log.targets, vec!["/var/log/crabdrive/".to_string()]);
}

#[test]
fn address_with_port() {
    let mut config = AppConfig::default_values(Environment::Dev);
    config.server.address = "::1".to_string();
    config.server.port = 80;
    assert_eq!(config.addr(), "[::1]:80");
    config.server.address = "10.0.0.1".to_string();
    assert_eq!(config.addr(), "10.0.0.1:80");
}

#[test]
fn default_environment_follows_build() {
    assert_eq!(AppConfig::default_env(true), Environment::Dev);
    assert_eq!(AppConfig::default_env(false), Environment::Prod);
}

#[test]
fn levels_to_log_from() {
    assert_eq!(logging_level(&"ERROR".to_string()), Some(LogLevel::Error));
    assert_eq!(logging_level(&"WARN".to_string()), Some(LogLevel::Warn));
    assert_eq!(logging_level(&"INFO".to_string()), Some(LogLevel::Info));
    assert_eq!(logging_level(&"DEBUG".to_string()), Some(LogLevel::Debug));
    assert_eq!(logging_level(&"TRACE".to_string()), Some(LogLevel::Trace));
    assert_eq!(logging_level(&"NONE".to_string()), None);
}

#[test]
fn log_targets() {
    assert_eq!(classify_log_target(":stdout:"), LogTarget::Stdout);
    assert_eq!(classify_log_target(":stderr:"), LogTarget::Stderr);
    assert_eq!(classify_log_target("/var/log/crabdrive/"), LogTarget::Directory);
    assert_eq!(classify_log_target("/var/log/server.json"), LogTarget::JsonFile);
    assert_eq!(classify_log_target("/var/log/server.log"), LogTarget::File);
    assert_eq!(classify_log_target("/var/log/.json"), LogTarget::File);
    assert_eq!(classify_log_target("server"), LogTarget::File);
}
