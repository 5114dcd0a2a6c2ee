//! Messages forwarded from the web view: which severity a level name stands
//! for, and the text that is logged.

use vstd::prelude::*;
use vstd::string::StringExecFns;
use crate::text::{lowercase, lowercase_of, same_text, trimmed, trimmed_of};

verus! {

/// Log target of every message that comes from the web view.
pub const WEBVIEW_TARGET: &'static str = "webview";

/// Severity of a log message.
#[derive(Clone, Copy, Debug, PartialEq, Eq, Structural)]
pub enum LogLevel {
    Error,
    Warn,
    Info,
    Debug,
    Trace,
}

/// A message ready to be handed to the logger.
pub struct LogEntry {
    pub level: LogLevel,
    pub message: String,
}

/// The severity a lowercase level name stands for. Any name other than
/// `error`, `warn`, `debug` and `trace` means `Info`.
pub open spec fn level_named(lowered: Seq<char>) -> LogLevel {
    if lowered == "error"@ {
        LogLevel::Error
    } else if lowered == "warn"@ {
        LogLevel::Warn
    } else if lowered == "debug"@ {
        LogLevel::Debug
    } else if lowered == "trace"@ {
        LogLevel::Trace
    } else {
        LogLevel::Info
    }
}

/// Reads a level name that is already in lowercase.
pub fn level_from_lowercase(lowered: &str) -> (level: LogLevel)
    ensures
        level == level_named(lowered@),
{
    if same_text(lowered, "error") {
        LogLevel::Error
    } else if same_text(lowered, "warn") {
        LogLevel::Warn
    } else if same_text(lowered, "debug") {
        LogLevel::Debug
    } else if same_text(lowered, "trace") {
        LogLevel::Trace
    } else {
        LogLevel::Info
    }
}

/// Reads a level name in any letter case.
pub fn parse_log_level(level: &str) -> (parsed: LogLevel)
    ensures
        parsed == level_named(lowercase_of(level@)),
{
    let lowered = lowercase(level);
    level_from_lowercase(lowered.as_str())
}

/// Prepares a web-view message for the logger: the level is read in any
/// letter case and the message loses its surrounding whitespace.
pub fn webview_log_entry(level: &str, message: &str) -> (entry: LogEntry)
    ensures
        entry.level == level_named(lowercase_of(level@)),
        entry.message@ == trimmed_of(message@),
{
    LogEntry { level: parse_log_level(level), message: String::from_str(trimmed(message)) }
}

} // verus!
