use insight_reader::cli::{check_config_size, init_logging, latest_log, log_tail_start, LogEntry, MAX_CONFIG_SIZE};
use insight_reader::config::RawConfig;
use insight_reader::logging::{
    filter_directive, log_dir_for, log_file_name, log_level_to_filter_string, log_line_head, LogInitError,
    LoggingConfig,
};
use insight_reader::model::LogLevel;
use insight_reader::paths::{file_name_string, join_path, replace_extension};

#[test]
fn cli_logging_goes_to_file_only() {
    let mut c = RawConfig::empty();
    c.log_level = Some("error".to_string());
    let cfg = init_logging(&Ok(c));
    assert_eq!(cfg.verbosity, LogLevel::Error);
    assert!(!cfg.log_to_stderr);
    assert!(cfg.log_to_file);
    assert!(cfg.log_dir.is_none());
}

#[test]
fn config_size_limit() {
    assert_eq!(MAX_CONFIG_SIZE, 10_485_760);
    assert_eq!(check_config_size(0), Ok(()));
    assert_eq!(check_config_size(10_485_760), Ok(()));
    assert_eq!(
        check_config_size(10_485_761),
        Err("Error: Config file is too large (10485761 bytes, max 10485760 bytes)".to_string())
    );
}

#[test]
fn tail_of_log() {
    assert_eq!(log_tail_start(120, 50), 70);
    assert_eq!(log_tail_start(10, 50), 0);
    assert_eq!(log_tail_start(10, 0), 10);
    assert_eq!(log_tail_start(0, 1000), 0);
}

fn entry(name: &str, is_file: bool, modified: Option<i128>) -> LogEntry {
    LogEntry { name: name.to_string(), is_file, modified }
}

#[test]
fn latest_log_file() {
    let entries = vec![
        entry("insight-reader.log.2026-01-05", true, Some(100)),
        entry("other.log", true, Some(900)),
        entry("insight-reader.log", true, Some(300)),
        entry("insight-reader.log.dir", false, Some(999)),
        entry("insight-reader.log.2026-01-06", true, Some(300)),
        entry("insight-reader.log.broken", true, None),
    ];
    assert_eq!(latest_log(&entries), Some(4));
    assert_eq!(latest_log(&vec![entry("notes.txt", true, Some(1))]), None);
    assert_eq!(latest_log(&vec![]), None);
}

#[test]
fn logging_defaults_and_filters() {
    let d = LoggingConfig::default();
    assert_eq!(d.verbosity, LogLevel::Info);
    assert!(d.log_to_stderr && d.log_to_file && d.log_dir.is_none());
    assert_eq!(log_level_to_filter_string(LogLevel::Warn), "warn");
    assert_eq!(log_level_to_filter_string(LogLevel::Trace), "trace");
    assert_eq!(filter_directive(&Some("insight_reader=debug".to_string()), LogLevel::Info), "insight_reader=debug");
    assert_eq!(filter_directive(&Some(String::new()), LogLevel::Error), "error");
    assert_eq!(filter_directive(&None, LogLevel::Debug), "debug");
    assert_eq!(log_file_name(), "insight-reader.log");
}

#[test]
fn log_directory() {
    let d = LoggingConfig::default();
    assert_eq!(
        log_dir_for(&d, &Some("/home/ada/.local/share".to_string())),
        "/home/ada/.local/share/insight-reader/logs"
    );
    assert_eq!(log_dir_for(&d, &None), "/tmp/insight-reader/logs");
    let custom = LoggingConfig { log_dir: Some("/var/log/ir".to_string()), ..LoggingConfig::default() };
    assert_eq!(log_dir_for(&custom, &None), "/var/log/ir");
}

#[test]
fn log_line_heads() {
    assert_eq!(
        log_line_head(LogLevel::Info, "insight_reader::view", &Some("src/view.rs".to_string()), Some(92)),
        "INFO  insight_reader::view (view.rs:92) \u{2013} "
    );
    assert_eq!(log_line_head(LogLevel::Error, "t", &None, Some(1)), "ERROR t \u{2013} ");
    assert_eq!(log_line_head(LogLevel::Warn, "t", &Some("a.rs".to_string()), None), "WARN  t \u{2013} ");
}

#[test]
fn log_init_errors() {
    assert_eq!(
        LogInitError::DirectoryCreation("denied".to_string()).message(),
        "Failed to create log directory: denied"
    );
    assert_eq!(LogInitError::AlreadyInitialized.message(), "Logging already initialized");
    assert_eq!(LogInitError::FilterParse("bad".to_string()).message(), "Failed to parse log filter: bad");
}

#[test]
fn path_helpers() {
    assert_eq!(join_path("a", "b"), "a/b");
    assert_eq!(join_path("a/", "b"), "a/b");
    assert_eq!(join_path("", "b"), "b");
    assert_eq!(join_path("a", "/abs"), "/abs");
    assert_eq!(file_name_string("src/view.rs"), Some("view.rs".to_string()));
    assert_eq!(file_name_string("a/b/"), Some("b".to_string()));
    assert_eq!(file_name_string("a/.."), None);
    assert_eq!(file_name_string("/"), None);
    assert_eq!(replace_extension("a/b.txt", "md"), "a/b.md");
    assert_eq!(replace_extension("a/b.txt", ""), "a/b");
}
