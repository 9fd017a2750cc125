//! Presentation of log records: colors per level and which records are shown where.
use vstd::prelude::*;

verus! {

/// Severity of a log record, most severe first.
#[derive(Clone, Copy, Debug, PartialEq, Eq, Structural)]
pub enum LogLevel {
    Error,
    Warn,
    Info,
    Debug,
    Trace,
}

pub open spec fn ansi_color_spec(level: LogLevel) -> Seq<char> {
    match level {
        LogLevel::Error => "\x1B[1;31m"@,
        LogLevel::Warn => "\x1B[1;33m"@,
        LogLevel::Info => "\x1B[1;34m"@,
        LogLevel::Debug => "\x1B[1;35m"@,
        LogLevel::Trace => "\x1B[1;36m"@,
    }
}

/// The ANSI escape that colors a record's level: bold red, yellow, blue, magenta and cyan,
/// from errors to traces.
pub fn loglevel_ansi_color(level: LogLevel) -> (r: &'static str)
    ensures
        r@ == ansi_color_spec(level),
{
    match level {
        LogLevel::Error => "\x1B[1;31m",
        LogLevel::Warn => "\x1B[1;33m",
        LogLevel::Info => "\x1B[1;34m",
        LogLevel::Debug => "\x1B[1;35m",
        LogLevel::Trace => "\x1B[1;36m",
    }
}

/// Records of level info and more severe are shown.
pub fn enabled(level: LogLevel) -> (r: bool)
    ensures
        r == (level == LogLevel::Error || level == LogLevel::Warn || level == LogLevel::Info),
{
    match level {
        LogLevel::Error | LogLevel::Warn | LogLevel::Info => true,
        _ => false,
    }
}

/// Every record but errors goes to standard error; errors go to standard output.
pub fn uses_stderr(level: LogLevel) -> (r: bool)
    ensures
        r == (level != LogLevel::Error),
{
    match level {
        LogLevel::Error => false,
        _ => true,
    }
}

} // verus!
