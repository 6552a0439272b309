//! What the server is configured with at start.

use crate::text::str_eq;
use vstd::prelude::*;

verus! {

/// The port the server listens on where none is configured.
pub const DEFAULT_PORT: u16 = 8000;

/// The namespace that is scanned where none is configured.
pub const DEFAULT_NAMESPACE: &'static str = "default";

/// The log level where none is configured.
pub const DEFAULT_LOG_LEVEL: &'static str = "info";

/// The log format where none is configured.
pub const DEFAULT_LOG_FORMAT: &'static str = "info";

/// The deadline of each RPC call, in seconds, where none is configured.
pub const DEFAULT_TIMEOUT: u64 = 5;

/// The configuration of the server. It is read once, at start.
#[derive(Debug, Clone)]
pub struct Args {
    /// The port to listen on.
    pub port: u16,
    /// The namespace whose pods are scanned.
    pub namespace: String,
    /// The name of the most verbose level that is logged.
    pub log_level: String,
    /// The name of the format that log lines are written in.
    pub log_format: String,
    /// The deadline of each single RPC call, in seconds.
    pub timeout: u64,
}

impl Default for Args {
    /// The configuration in which nothing was configured.
    fn default() -> (args: Args)
        ensures
            args.port == DEFAULT_PORT,
            args.namespace@ == DEFAULT_NAMESPACE@,
            args.log_level@ == DEFAULT_LOG_LEVEL@,
            args.log_format@ == DEFAULT_LOG_FORMAT@,
            args.timeout == DEFAULT_TIMEOUT,
    {
        Args {
            port: DEFAULT_PORT,
            namespace: DEFAULT_NAMESPACE.to_owned(),
            log_level: DEFAULT_LOG_LEVEL.to_owned(),
            log_format: DEFAULT_LOG_FORMAT.to_owned(),
            timeout: DEFAULT_TIMEOUT,
        }
    }
}

/// The most verbose level that is logged.
#[derive(Debug, Clone, Copy, PartialEq, Eq, Structural)]
pub enum LevelFilter {
    Error,
    Warn,
    Info,
    Debug,
    Trace,
}

/// The level that `level` names. A name that is none of the five, in lower
/// case, stands for [`LevelFilter::Info`].
pub open spec fn level_filter(level: Seq<char>) -> LevelFilter {
    if level == "error"@ {
        LevelFilter::Error
    } else if level == "warn"@ {
        LevelFilter::Warn
    } else if level == "info"@ {
        LevelFilter::Info
    } else if level == "debug"@ {
        LevelFilter::Debug
    } else if level == "trace"@ {
        LevelFilter::Trace
    } else {
        LevelFilter::Info
    }
}

/// The level filter that a configured log level asks for.
pub fn get_level_filter(level: &str) -> (filter: LevelFilter)
    ensures
        filter == level_filter(level@),
{
    if str_eq(level, "error") {
        LevelFilter::Error
    } else if str_eq(level, "warn") {
        LevelFilter::Warn
    } else if str_eq(level, "info") {
        LevelFilter::Info
    } else if str_eq(level, "debug") {
        LevelFilter::Debug
    } else if str_eq(level, "trace") {
        LevelFilter::Trace
    } else {
        LevelFilter::Info
    }
}

/// The format that log lines are written in.
#[derive(Debug, Clone, Copy, PartialEq, Eq, Structural)]
pub enum LogFormat {
    /// One JSON object per line.
    Json,
    /// Plain text.
    Info,
}

/// The format that `format` names, if it names one.
pub open spec fn log_format(format: Seq<char>) -> Option<LogFormat> {
    if format == "json"@ {
        Some(LogFormat::Json)
    } else if format == "info"@ {
        Some(LogFormat::Info)
    } else {
        None
    }
}

/// The log format that a configured name asks for. A name that is neither
/// `json` nor `info` is no format: the server does not start with it.
pub fn get_log_format(format: &str) -> (chosen: Option<LogFormat>)
    ensures
        chosen == log_format(format@),
{
    if str_eq(format, "json") {
        Some(LogFormat::Json)
    } else if str_eq(format, "info") {
        Some(LogFormat::Info)
    } else {
        None
    }
}

} // verus!
