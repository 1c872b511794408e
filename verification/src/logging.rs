//! Logging settings: the filter directive, where log files go, the errors
//! of initialization, and the head of each formatted log line.
//!
//! Installing the subscriber and writing the files are left to the caller.
use vstd::prelude::*;

use crate::locations;
use crate::model::LogLevel;
use crate::paths::{file_name, join_path, path_join};
use crate::text;
use crate::text::{push_chars, push_decimal, to_chars};

verus! {

/// Errors of logging initialization.
#[derive(Debug, Clone, PartialEq, Eq)]
pub enum LogInitError {
    /// The log directory could not be created (the system's message).
    DirectoryCreation(String),
    /// Logging was already initialized.
    AlreadyInitialized,
    /// The log filter could not be parsed (the parser's message).
    FilterParse(String),
}

/// The text of an error.
pub open spec fn log_init_message(e: LogInitError) -> Seq<char> {
    match e {
        LogInitError::DirectoryCreation(m) => "Failed to create log directory: "@ + m@,
        LogInitError::AlreadyInitialized => "Logging already initialized"@,
        LogInitError::FilterParse(m) => "Failed to parse log filter: "@ + m@,
    }
}

impl LogInitError {
    /// The message shown for this error.
    pub fn message(&self) -> (s: String)
        ensures
            s@ == log_init_message(*self),
    {
        match self {
            LogInitError::DirectoryCreation(m) => {
                let mut s = "Failed to create log directory: ".to_owned();
                push_chars(&mut s, to_chars(m.as_str()).as_slice());
                s
            },
            LogInitError::AlreadyInitialized => "Logging already initialized".to_owned(),
            LogInitError::FilterParse(m) => {
                let mut s = "Failed to parse log filter: ".to_owned();
                push_chars(&mut s, to_chars(m.as_str()).as_slice());
                s
            },
        }
    }
}

/// Configuration of the logging system.
#[derive(Debug, Clone)]
pub struct LoggingConfig {
    /// Initial log verbosity.
    pub verbosity: LogLevel,
    /// Whether to log to standard error.
    pub log_to_stderr: bool,
    /// Whether to log to a file.
    pub log_to_file: bool,
    /// Directory for log files (`None`: the default one).
    pub log_dir: Option<String>,
}

impl Default for LoggingConfig {
    /// Info level, to standard error and to a file in the default
    /// directory.
    fn default() -> (c: LoggingConfig)
        ensures
            c.verbosity == LogLevel::Info,
            c.log_to_stderr,
            c.log_to_file,
            c.log_dir is None,
    {
        LoggingConfig { verbosity: LogLevel::Info, log_to_stderr: true, log_to_file: true, log_dir: None }
    }
}

/// The filter directive of a level.
pub open spec fn filter_name(level: LogLevel) -> Seq<char> {
    match level {
        LogLevel::Error => "error"@,
        LogLevel::Warn => "warn"@,
        LogLevel::Info => "info"@,
        LogLevel::Debug => "debug"@,
        LogLevel::Trace => "trace"@,
    }
}

/// The filter directive of a level ("error", "warn", "info", "debug",
/// "trace").
pub fn log_level_to_filter_string(level: LogLevel) -> (r: &'static str)
    ensures
        r@ == filter_name(level),
{
    match level {
        LogLevel::Error => "error",
        LogLevel::Warn => "warn",
        LogLevel::Info => "info",
        LogLevel::Debug => "debug",
        LogLevel::Trace => "trace",
    }
}

/// The filter to install: `RUST_LOG` when it is set and not empty,
/// otherwise the directive of the configured level.
pub fn filter_directive(rust_log: &Option<String>, default_level: LogLevel) -> (r: String)
    ensures
        r@ == match *rust_log {
            Some(v) => if v@.len() > 0 { v@ } else { filter_name(default_level) },
            None => filter_name(default_level),
        },
{
    if let Some(v) = rust_log {
        if !v.as_str().is_empty() {
            return v.clone();
        }
    }
    log_level_to_filter_string(default_level).to_owned()
}

/// The log directory: the configured one, or "insight-reader/logs" under
/// the local data directory ("/tmp" when there is none).
pub open spec fn spec_log_dir(log_dir: Option<String>, data_local_dir: Option<String>) -> Seq<char> {
    match log_dir {
        Some(d) => d@,
        None => path_join(
            path_join(
                match data_local_dir {
                    Some(d) => d@,
                    None => "/tmp"@,
                },
                "insight-reader"@,
            ),
            "logs"@,
        ),
    }
}

/// The log directory for a configuration, given the local data directory
/// (see [`spec_log_dir`]).
pub fn log_dir_for(config: &LoggingConfig, data_local_dir: &Option<String>) -> (r: String)
    ensures
        r@ == spec_log_dir(config.log_dir, *data_local_dir),
{
    match &config.log_dir {
        Some(d) => d.clone(),
        None => {
            let base = match data_local_dir {
                Some(d) => d.clone(),
                None => "/tmp".to_owned(),
            };
            let a = join_path(base.as_str(), "insight-reader");
            join_path(a.as_str(), "logs")
        },
    }
}

/// The log directory for a configuration, under the user's local data
/// directory when none is configured.
pub fn resolve_log_dir(config: &LoggingConfig) -> (r: String)
    ensures
        config.log_dir is Some ==> r@ == config.log_dir.unwrap()@,
        config.log_dir is None ==> exists|d: Option<String>| r@ == spec_log_dir(None, d),
{
    match &config.log_dir {
        Some(d) => d.clone(),
        None => {
            let local = locations::data_local_dir();
            let r = log_dir_for(config, &local);
            assert(r@ == spec_log_dir(None, local));
            r
        },
    }
}

/// The default log directory ("insight-reader/logs" under the local data
/// directory).
pub fn default_log_dir() -> (r: String)
    ensures
        exists|d: Option<String>| r@ == spec_log_dir(None, d),
{
    let config = LoggingConfig { verbosity: LogLevel::Info, log_to_stderr: true, log_to_file: true, log_dir: None };
    resolve_log_dir(&config)
}

/// The name of the log file, rotated daily.
pub fn log_file_name() -> (r: &'static str)
    ensures
        r@ == "insight-reader.log"@,
{
    "insight-reader.log"
}

/// The level as written in a log line, five characters wide.
pub open spec fn level_label(level: LogLevel) -> Seq<char> {
    match level {
        LogLevel::Error => "ERROR"@,
        LogLevel::Warn => "WARN "@,
        LogLevel::Info => "INFO "@,
        LogLevel::Debug => "DEBUG"@,
        LogLevel::Trace => "TRACE"@,
    }
}

/// The head of a log line after its timestamp: the level, the target, the
/// source file's name and line when both are known, and the separator
/// before the message: "INFO  insight_reader::view (view.rs:92) – ".
pub open spec fn spec_log_line_head(level: LogLevel, target: Seq<char>, file: Option<Seq<char>>, line: Option<u32>) -> Seq<char> {
    level_label(level) + seq![' '] + target + seq![' '] + (match (file, line) {
        (Some(f), Some(l)) => seq!['('] + (match file_name(f) {
            Some(n) => n,
            None => f,
        }) + seq![':'] + text::decimal(l as nat) + seq![')', ' '],
        _ => seq![],
    }) + seq!['\u{2013}', ' ']
}

fn file_name_of(path: &str) -> (r: String)
    ensures
        r@ == match file_name(path@) {
            Some(n) => n,
            None => path@,
        },
{
    match crate::paths::file_name_string(path) {
        Some(n) => n,
        None => path.to_owned(),
    }
}

/// The head of a log line after its timestamp (see
/// [`spec_log_line_head`]).
pub fn log_line_head(level: LogLevel, target: &str, file: &Option<String>, line: Option<u32>) -> (r: String)
    ensures
        r@ == spec_log_line_head(level, target@, match *file {
            Some(f) => Some(f@),
            None => None,
        }, line),
{
    let mut s = match level {
        LogLevel::Error => "ERROR".to_owned(),
        LogLevel::Warn => "WARN ".to_owned(),
        LogLevel::Info => "INFO ".to_owned(),
        LogLevel::Debug => "DEBUG".to_owned(),
        LogLevel::Trace => "TRACE".to_owned(),
    };
    push_chars(&mut s, &[' ']);
    push_chars(&mut s, to_chars(target).as_slice());
    push_chars(&mut s, &[' ']);
    match (file, line) {
        (Some(f), Some(l)) => {
            push_chars(&mut s, &['(']);
            let n = file_name_of(f.as_str());
            push_chars(&mut s, to_chars(n.as_str()).as_slice());
            push_chars(&mut s, &[':']);
            push_decimal(&mut s, l as u64);
            push_chars(&mut s, &[')', ' ']);
        },
        _ => {},
    }
    push_chars(&mut s, &['\u{2013}', ' ']);
    s
}

} // verus!
