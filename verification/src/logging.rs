use vstd::prelude::*;

verus! {

/// Severity of a diagnostic message. Diagnostics are informational only:
/// their loss never changes a request's outcome, so the library carries
/// only the level and leaves emission to the runner.
#[derive(Clone, Copy, PartialEq, Eq, Structural, Debug)]
pub enum LogLevel {
    Error,
    Warning,
    Info,
    Debug,
    Verbose,
}

/// The numeric severity the platform's filter expects: 0 for the most
/// severe, rising as messages become chattier.
pub open spec fn severity_spec(level: LogLevel) -> u32 {
    match level {
        LogLevel::Error => 0,
        LogLevel::Warning => 1,
        LogLevel::Info => 2,
        LogLevel::Debug => 3,
        LogLevel::Verbose => 4,
    }
}

impl LogLevel {
    pub fn severity(&self) -> (n: u32)
        ensures
            n == severity_spec(*self),
    {
        match self {
            LogLevel::Error => 0,
            LogLevel::Warning => 1,
            LogLevel::Info => 2,
            LogLevel::Debug => 3,
            LogLevel::Verbose => 4,
        }
    }
}

} // verus!
