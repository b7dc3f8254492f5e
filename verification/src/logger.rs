use vstd::prelude::*;

verus! {

/// Log severities, most severe first.
#[derive(Clone, Copy, Debug, PartialEq, Eq, Structural)]
pub enum LogLevel {
    Error,
    Warn,
    Info,
    Debug,
    Trace,
}

/// The default verbosity used by debug builds.
#[derive(Clone, Copy, Debug)]
pub struct DebugLevel;

impl DebugLevel {
    /// The level this default selects.
    pub fn default_level(&self) -> (r: Option<LogLevel>)
        ensures
            r == Some(LogLevel::Debug),
    {
        Some(LogLevel::Debug)
    }
}

impl Default for DebugLevel {
    fn default() -> (r: Self) {
        DebugLevel
    }
}

} // verus!
