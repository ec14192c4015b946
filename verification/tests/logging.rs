use lolshorts::utils::logging::{LogConfig, LogLevel};

#[test]
fn test_log_config_production() {
    let config = LogConfig::production("/tmp/lolshorts_logs".to_string());

    assert_eq!(config.level, LogLevel::Info);
    assert!(config.file_enabled);
    assert!(!config.console_enabled);
    assert!(!config.console_pretty);
    assert_eq!((config.max_file_size_mb, config.max_files), (10, 5));
}

#[test]
fn test_log_config_development() {
    let config = LogConfig::development("/tmp/lolshorts_logs".to_string());

    assert_eq!(config.level, LogLevel::Debug);
    assert!(config.file_enabled);
    assert!(config.console_enabled);
    assert!(config.console_pretty);
    assert_eq!((config.max_file_size_mb, config.max_files), (50, 3));
}

#[test]
fn log_config_default() {
    let release = LogConfig::default_for(false);
    assert_eq!(release.log_dir, "logs");
    assert!(release.console_enabled);
    assert!(!release.console_pretty);
    assert!(LogConfig::default_for(true).console_pretty);
}
