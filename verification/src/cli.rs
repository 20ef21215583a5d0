//! Runtime configuration: the command-line arguments the process runs
//! with, and the log levels it can be asked for.
//!
//! Parsing the command line and initializing the logger are the program
//! shell's work; the types and the level mapping live here.

use vstd::prelude::*;

verus! {

/// Log level selected on the command line.
#[derive(Clone, Copy, PartialEq, Eq, Structural, Debug)]
pub enum LogLevel {
    /// Errors only.
    Error,
    /// Warnings and errors.
    Warn,
    /// Informational messages and above.
    Info,
    /// Debug messages and above.
    Debug,
    /// Everything.
    Trace,
}

/// The maximum level the logging facade is configured to let through; the
/// program shell converts this to the logging crate's own filter.
#[derive(Clone, Copy, PartialEq, Eq, Structural, Debug)]
pub enum LogLevelFilter {
    /// Let errors through.
    Error,
    /// Let warnings and errors through.
    Warn,
    /// Let informational messages and above through.
    Info,
    /// Let debug messages and above through.
    Debug,
    /// Let everything through.
    Trace,
}

/// The filter each level maps to.
pub open spec fn spec_log_level_filter(level: LogLevel) -> LogLevelFilter {
    match level {
        LogLevel::Error => LogLevelFilter::Error,
        LogLevel::Warn => LogLevelFilter::Warn,
        LogLevel::Info => LogLevelFilter::Info,
        LogLevel::Debug => LogLevelFilter::Debug,
        LogLevel::Trace => LogLevelFilter::Trace,
    }
}

impl LogLevel {
    /// The filter this level configures the logger with.
    pub fn to_log_level_filter(&self) -> (f: LogLevelFilter)
        ensures
            f == spec_log_level_filter(*self),
    {
        match self {
            LogLevel::Error => LogLevelFilter::Error,
            LogLevel::Warn => LogLevelFilter::Warn,
            LogLevel::Info => LogLevelFilter::Info,
            LogLevel::Debug => LogLevelFilter::Debug,
            LogLevel::Trace => LogLevelFilter::Trace,
        }
    }
}

/// Command line arguments: the database path, the three cache roots, the
/// sidecar scan directory, the log level and the server port.
#[derive(Clone, Debug)]
pub struct CliArgs {
    /// Path to the SQLite database file.
    pub db_path: String,
    /// Path to the thumbnail cache directory.
    pub thumbnail_cache: String,
    /// Path to the full image cache directory.
    pub full_image_cache: String,
    /// Path to the video preview cache directory.
    pub video_preview_cache: String,
    /// Directory to scan for XMP sidecar files.
    pub scan_dir: String,
    /// The logging level.
    pub log_level: LogLevel,
    /// Port for the webserver.
    pub port: u16,
}

} // verus!
