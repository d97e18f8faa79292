//! Log records: a level and a message, rendered as one line of the diagnostic
//! stream.
use vstd::prelude::*;
use crate::lines::{copy_str, push_str, push_char};

verus! {

#[derive(Debug, Clone, Copy, PartialEq, Eq, Structural)]
pub enum LogLevel {
    Debug,
    Info,
    Warning,
    Error,
}

pub open spec fn level_name(l: LogLevel) -> Seq<char> {
    match l {
        LogLevel::Debug => "debug"@,
        LogLevel::Info => "info"@,
        LogLevel::Warning => "warning"@,
        LogLevel::Error => "error"@,
    }
}

impl LogLevel {
    /// The level's name as it appears in log lines.
    pub fn as_str(&self) -> (r: &'static str)
        ensures
            r@ == level_name(*self),
    {
        match self {
            LogLevel::Debug => "debug",
            LogLevel::Info => "info",
            LogLevel::Warning => "warning",
            LogLevel::Error => "error",
        }
    }
}

/// A message at a level.
#[derive(Debug)]
pub struct LogRecord {
    pub level: LogLevel,
    pub message: String,
}

impl LogRecord {
    /// `[timestamp] [level] message`.
    pub fn line(&self, timestamp: &str) -> (r: String)
        ensures
            r@ == seq!['['] + timestamp@ + "] ["@ + level_name(self.level) + seq![']', ' '] + self.message@,
    {
        let mut out = String::new();
        push_char(&mut out, '[');
        push_str(&mut out, timestamp);
        push_str(&mut out, "] [");
        push_str(&mut out, self.level.as_str());
        push_char(&mut out, ']');
        push_char(&mut out, ' ');
        push_str(&mut out, self.message.as_str());
        out
    }
}

fn record(level: LogLevel, message: &str) -> (r: LogRecord)
    ensures
        r.level == level,
        r.message@ == message@,
{
    LogRecord { level, message: copy_str(message) }
}

/// A debug-level record.
pub fn debug(message: &str) -> (r: LogRecord)
    ensures
        r.level == LogLevel::Debug,
        r.message@ == message@,
{
    record(LogLevel::Debug, message)
}

/// An info-level record.
pub fn info(message: &str) -> (r: LogRecord)
    ensures
        r.level == LogLevel::Info,
        r.message@ == message@,
{
    record(LogLevel::Info, message)
}

/// A warning-level record.
pub fn warn(message: &str) -> (r: LogRecord)
    ensures
        r.level == LogLevel::Warning,
        r.message@ == message@,
{
    record(LogLevel::Warning, message)
}

/// An error-level record.
pub fn error(message: &str) -> (r: LogRecord)
    ensures
        r.level == LogLevel::Error,
        r.message@ == message@,
{
    record(LogLevel::Error, message)
}

} // verus!
