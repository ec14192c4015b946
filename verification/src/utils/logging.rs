//! Logging configuration: the level, the files and the console output.
use crate::text::owned;
use vstd::prelude::*;

verus! {

/// Minimum level of the messages logged.
#[derive(Debug, Clone, Copy, PartialEq, Eq, Structural)]
pub enum LogLevel {
    Trace,
    Debug,
    Info,
    Warn,
    Error,
}

/// Logging configuration.
#[derive(Debug)]
pub struct LogConfig {
    /// Minimum log level.
    pub level: LogLevel,
    /// Whether messages are written to files.
    pub file_enabled: bool,
    /// Directory of the log files.
    pub log_dir: String,
    /// Size in MB at which a log file is rotated.
    pub max_file_size_mb: u64,
    /// Rotated log files kept.
    pub max_files: usize,
    /// Whether messages are written to the console.
    pub console_enabled: bool,
    /// Whether console messages are pretty-printed.
    pub console_pretty: bool,
}

impl LogConfig {
    /// Production: INFO to files of 10 MB (five kept), no console.
    pub fn production(log_dir: String) -> (r: Self)
        ensures
            r.level == LogLevel::Info,
            r.file_enabled,
            r.log_dir == log_dir,
            r.max_file_size_mb == 10,
            r.max_files == 5,
            !r.console_enabled,
            !r.console_pretty,
    {
        LogConfig {
            level: LogLevel::Info,
            file_enabled: true,
            log_dir,
            max_file_size_mb: 10,
            max_files: 5,
            console_enabled: false,
            console_pretty: false,
        }
    }

    /// Development: DEBUG to files of 50 MB (three kept) and to a pretty console.
    pub fn development(log_dir: String) -> (r: Self)
        ensures
            r.level == LogLevel::Debug,
            r.file_enabled,
            r.log_dir == log_dir,
            r.max_file_size_mb == 50,
            r.max_files == 3,
            r.console_enabled,
            r.console_pretty,
    {
        LogConfig {
            level: LogLevel::Debug,
            file_enabled: true,
            log_dir,
            max_file_size_mb: 50,
            max_files: 3,
            console_enabled: true,
            console_pretty: true,
        }
    }

    /// The default: INFO to files of 10 MB (five kept) under `logs` and to the
    /// console, pretty-printed in debug builds (`debug_build`).
    pub fn default_for(debug_build: bool) -> (r: Self)
        ensures
            r.level == LogLevel::Info,
            r.file_enabled,
            r.log_dir@ == "logs"@,
            r.max_file_size_mb == 10,
            r.max_files == 5,
            r.console_enabled,
            r.console_pretty == debug_build,
    {
        LogConfig {
            level: LogLevel::Info,
            file_enabled: true,
            log_dir: owned("logs"),
            max_file_size_mb: 10,
            max_files: 5,
            console_enabled: true,
            console_pretty: debug_build,
        }
    }
}

} // verus!
