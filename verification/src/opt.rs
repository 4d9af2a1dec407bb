//! The options of the command line.

use vstd::prelude::*;

verus! {

/// How much is logged: each level takes in those before it.
#[derive(Clone, Copy, Debug, PartialEq, Eq, Structural)]
pub enum Level {
    Error,
    Warn,
    Info,
    Debug,
    Trace,
}

impl Level {
    /// The number of the level, counted from one: `Error` is 1 and `Trace`
    /// is 5.
    pub open spec fn number(self) -> nat {
        match self {
            Level::Error => 1,
            Level::Warn => 2,
            Level::Info => 3,
            Level::Debug => 4,
            Level::Trace => 5,
        }
    }
}

impl Default for Level {
    /// `Info`, the level that is logged at when none is asked for.
    fn default() -> (level: Level)
        ensures
            level == Level::Info,
    {
        Level::Info
    }
}

/// Command-line options
#[derive(Clone, Copy, Debug)]
pub struct Opt {
    /// Silence output
    pub quiet: bool,
    /// Log level (error, warn, info, debug, trace)
    pub log_level: Level,
}

impl Opt {
    /// The verbosity that the logger is set to: one less than the number of
    /// the level, so that `Error` gives 0 and `Trace` gives 4.
    pub fn verbosity(&self) -> (verbosity: usize)
        ensures
            verbosity == self.log_level.number() - 1,
    {
        match self.log_level {
            Level::Error => 0,
            Level::Warn => 1,
            Level::Info => 2,
            Level::Debug => 3,
            Level::Trace => 4,
        }
    }
}

} // verus!
