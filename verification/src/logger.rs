//! The logging configuration the application installs at startup.

use vstd::prelude::*;

verus! {

/// Lowest level that is still recorded.
#[derive(Clone, Copy, Debug, PartialEq, Eq, Structural)]
pub enum LogLevel {
    Error,
    Warn,
    Info,
    Debug,
    Trace,
}

/// A file log: every record from `level` up is appended to the file at
/// `path`, formatted by `pattern`.
#[derive(Clone, Debug)]
pub struct LogConfig {
    /// Format of one record: its level, a dash, its message.
    pub pattern: String,
    pub path: String,
    pub level: LogLevel,
}

/// The configuration the application logs with: every record down to trace
/// level, appended to `log/output.log`, each as "level - message". The host
/// installs it in its logging backend at startup.
pub fn init() -> (c: LogConfig)
    ensures
        c.pattern@ == "{l} - {m}\n"@,
        c.path@ == "log/output.log"@,
        c.level == LogLevel::Trace,
{
    LogConfig {
        pattern: "{l} - {m}\n".to_owned(),
        path: "log/output.log".to_owned(),
        level: LogLevel::Trace,
    }
}

} // verus!
