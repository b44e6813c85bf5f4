//! The narrow logging interface the core emits events through: a log level
//! and a process-wide verbosity choice made once at startup. Formatting and
//! the actual output sink live outside the core.

use vstd::prelude::*;

verus! {

/// Severity of a log event, from most to least important.
#[derive(Clone, Copy, PartialEq, Eq, Structural, Debug)]
pub enum LogLevel {
    Error,
    Warn,
    Info,
    Debug,
}

/// Numeric severity rank, increasing from `Error` to `Debug`.
pub open spec fn rank(level: LogLevel) -> int {
    match level {
        LogLevel::Error => 0,
        LogLevel::Warn => 1,
        LogLevel::Info => 2,
        LogLevel::Debug => 3,
    }
}

/// The process-wide logging context: an explicit verbosity choice, made once
/// at startup and then only read.
pub struct Logger {
    verbose: bool,
}

/// Creates the logging context with the given verbosity.
pub fn init(verbose: bool) -> (r: Logger)
    ensures
        r.spec_verbose() == verbose,
{
    Logger { verbose }
}

impl Logger {
    /// Whether the context was initialized as verbose.
    pub closed spec fn spec_verbose(self) -> bool {
        self.verbose
    }

    /// The verbosity policy: error, warning and info events always pass;
    /// debug events pass only in a verbose context.
    pub fn enabled(&self, level: LogLevel) -> (r: bool)
        ensures
            r == (rank(level) <= rank(LogLevel::Info) || self.spec_verbose()),
    {
        match level {
            LogLevel::Debug => self.verbose,
            _ => true,
        }
    }
}

} // verus!
