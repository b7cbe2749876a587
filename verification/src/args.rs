//! Command-line options of the report collector and the log verbosity they select.

use vstd::prelude::*;

verus! {

/// How much the process logs.
#[derive(Clone, Copy, Debug, PartialEq, Eq, Structural)]
pub enum LogLevel {
    Warn,
    Info,
    Debug,
}

/// Options given on the command line.
#[derive(Clone, Copy, Debug)]
pub struct Args {
    /// Port the collector listens on.
    pub port: u16,
    /// Log informational messages.
    pub verbose: bool,
    /// Log debugging messages; wins over `verbose`.
    pub debug: bool,
}

impl Args {
    /// The verbosity these options ask for.
    pub open spec fn spec_max_level(self) -> LogLevel {
        if self.debug {
            LogLevel::Debug
        } else if self.verbose {
            LogLevel::Info
        } else {
            LogLevel::Warn
        }
    }

    /// Selects the most verbose level that the options enable.
    pub fn max_level(&self) -> (level: LogLevel)
        ensures
            level == self.spec_max_level(),
    {
        if self.debug {
            LogLevel::Debug
        } else if self.verbose {
            LogLevel::Info
        } else {
            LogLevel::Warn
        }
    }
}

} // verus!
