//! The command-line interface: its commands, the logging it uses, and the
//! decisions behind `config show` and `logs show`.
//!
//! Parsing the arguments, reading files and printing are left to the
//! caller.
use vstd::prelude::*;

use crate::config;
use crate::config::LoadedConfig;
use crate::logging::LoggingConfig;
use crate::text;
use crate::text::{push_chars, push_decimal, starts_with_chars, to_chars};

verus! {

/// The command line.
#[derive(Debug, Clone)]
pub struct Cli {
    pub command: Option<Commands>,
}

/// The commands.
#[derive(Debug, Clone)]
#[allow(inconsistent_fields)]
pub enum Commands {
    /// Configuration management.
    Config { action: ConfigAction },
    /// Log file management.
    Logs { action: LogsAction },
    /// Show the status of the required system permissions (macOS only).
    Permissions,
}

/// Configuration commands.
#[derive(Debug, Clone, Copy, PartialEq, Eq, Structural)]
pub enum ConfigAction {
    /// Show the current configuration.
    Show,
}

/// Log commands.
#[derive(Debug, Clone, Copy, PartialEq, Eq, Structural)]
pub enum LogsAction {
    /// Show the last `lines` lines of the latest log file (50 by default).
    Show { lines: usize },
}

/// The logging of command-line mode: to a file in the default directory
/// only, at the configured level.
pub fn init_logging(loaded: &LoadedConfig) -> (c: LoggingConfig)
    ensures
        c.verbosity == config::spec_load_log_level(*loaded),
        !c.log_to_stderr,
        c.log_to_file,
        c.log_dir is None,
{
    LoggingConfig {
        verbosity: config::load_log_level(loaded),
        log_to_stderr: false,
        log_to_file: true,
        log_dir: None,
    }
}

/// The largest configuration file `config show` prints: 10 MiB.
pub const MAX_CONFIG_SIZE: u64 = 10 * 1024 * 1024;

/// Whether a configuration file of `size` bytes may be printed; the error
/// says it is too large.
pub fn check_config_size(size: u64) -> (r: Result<(), String>)
    ensures
        size <= MAX_CONFIG_SIZE <==> r is Ok,
        r is Err ==> r->Err_0@ == "Error: Config file is too large ("@ + text::decimal(size as nat)
            + " bytes, max "@ + text::decimal(MAX_CONFIG_SIZE as nat) + " bytes)"@,
{
    if size <= MAX_CONFIG_SIZE {
        return Ok(());
    }
    let mut m = "Error: Config file is too large (".to_owned();
    push_decimal(&mut m, size);
    push_chars(&mut m, to_chars(" bytes, max ").as_slice());
    push_decimal(&mut m, MAX_CONFIG_SIZE);
    push_chars(&mut m, to_chars(" bytes)").as_slice());
    Err(m)
}

/// Where the last `lines` lines of `total` start (at 0 when there are
/// fewer).
pub fn log_tail_start(total: usize, lines: usize) -> (start: usize)
    ensures
        start == if total >= lines { total - lines } else { 0 },
{
    total.saturating_sub(lines)
}

/// A file in the log directory: its name, whether it is a regular file,
/// and its modification time in nanoseconds since the Unix epoch (`None`
/// when it could not be read).
#[derive(Debug, Clone)]
pub struct LogEntry {
    pub name: String,
    pub is_file: bool,
    pub modified: Option<i128>,
}

/// A log file written by the application (daily rotation adds a date to
/// "insight-reader.log").
pub open spec fn is_log_candidate(e: LogEntry) -> bool {
    e.is_file && e.modified is Some && text::starts_with(e.name@, "insight-reader.log"@)
}

/// The entry of the latest log file: the candidate modified last, the last
/// one listed among equally recent ones; `None` when there is no candidate.
pub fn latest_log(entries: &Vec<LogEntry>) -> (r: Option<usize>)
    ensures
        r is None <==> forall|j: int| 0 <= j < entries@.len() ==> !is_log_candidate(#[trigger] entries@[j]),
        r is Some ==> ({
            let i = r.unwrap() as int;
            &&& 0 <= i < entries@.len()
            &&& is_log_candidate(entries@[i])
            &&& forall|j: int| 0 <= j < entries@.len() && is_log_candidate(#[trigger] entries@[j])
                ==> entries@[j].modified.unwrap() <= entries@[i].modified.unwrap()
            &&& forall|j: int| i < j < entries@.len() && is_log_candidate(#[trigger] entries@[j])
                ==> entries@[j].modified.unwrap() < entries@[i].modified.unwrap()
        }),
{
    let prefix = to_chars("insight-reader.log");
    let mut best: Option<usize> = None;
    let mut best_time: i128 = 0;
    let mut k: usize = 0;
    while k < entries.len()
        invariant
            k <= entries@.len(),
            prefix@ == "insight-reader.log"@,
            best is None <==> forall|j: int| 0 <= j < k ==> !is_log_candidate(#[trigger] entries@[j]),
            best is Some ==> ({
                let i = best.unwrap() as int;
                &&& 0 <= i < k
                &&& is_log_candidate(entries@[i])
                &&& entries@[i].modified == Some(best_time)
                &&& forall|j: int| 0 <= j < k && is_log_candidate(#[trigger] entries@[j])
                    ==> entries@[j].modified.unwrap() <= best_time
                &&& forall|j: int| i < j < k && is_log_candidate(#[trigger] entries@[j])
                    ==> entries@[j].modified.unwrap() < best_time
            }),
        decreases entries.len() - k,
    {
        let e = &entries[k];
        let name = to_chars(e.name.as_str());
        if e.is_file && starts_with_chars(name.as_slice(), prefix.as_slice()) {
            if let Some(t) = e.modified {
                assert(is_log_candidate(entries@[k as int]));
                if best.is_none() || t >= best_time {
                    best = Some(k);
                    best_time = t;
                }
            }
        }
        k += 1;
    }
    best
}

} // verus!
