//! The logger's rule: which records it takes.
//!
//! The logger is a plain value. It prints nothing itself: it keeps the
//! filter that it was made with and says whether it takes a record of a given
//! level. Whoever prints the records asks it.

use vstd::prelude::*;

verus! {

/// How severe a record is, from the most severe to the most verbose.
#[derive(Debug, Clone, Copy, PartialEq, Eq, Structural)]
pub enum Level {
    Error,
    Warn,
    Info,
    Debug,
    Trace,
}

/// The most verbose level that is let through; `Off` lets nothing through.
#[derive(Debug, Clone, Copy, PartialEq, Eq, Structural)]
pub enum LevelFilter {
    Off,
    Error,
    Warn,
    Info,
    Debug,
    Trace,
}

impl Level {
    /// The place of the level in the order of verbosity, from 1 for `Error`
    /// to 5 for `Trace`.
    pub open spec fn spec_rank(self) -> u8 {
        match self {
            Level::Error => 1,
            Level::Warn => 2,
            Level::Info => 3,
            Level::Debug => 4,
            Level::Trace => 5,
        }
    }

    /// The place of the level in the order of verbosity, from 1 for `Error`
    /// to 5 for `Trace`.
    #[verifier::when_used_as_spec(spec_rank)]
    pub fn rank(self) -> (rank: u8)
        ensures
            rank == self.spec_rank(),
    {
        match self {
            Level::Error => 1,
            Level::Warn => 2,
            Level::Info => 3,
            Level::Debug => 4,
            Level::Trace => 5,
        }
    }
}

/// A logger that takes records down to `Debug`. The filter that it was made
/// with is for whoever hands it the records: it says which of them to hand
/// over at all.
#[derive(Debug, Clone, Copy, PartialEq, Eq, Structural)]
pub struct SimpleLogger {
    max_level: LevelFilter,
}

impl SimpleLogger {
    /// The filter that the logger was made with.
    pub closed spec fn spec_max_level(&self) -> LevelFilter {
        self.max_level
    }

    /// The filter that the logger was made with.
    #[verifier::when_used_as_spec(spec_max_level)]
    pub fn max_level(&self) -> (level: LevelFilter)
        ensures
            level == self.spec_max_level(),
    {
        self.max_level
    }

    /// Whether the logger takes records of this level at all: every level
    /// but `Trace`, whatever the filter.
    pub fn enabled(&self, level: Level) -> (yes: bool)
        ensures
            yes == (level.rank() <= Level::Debug.rank()),
            yes == (level != Level::Trace),
    {
        level.rank() <= Level::Debug.rank()
    }
}

/// Makes the logger, with the most verbose level that it is to let through.
pub fn init_logger(level: LevelFilter) -> (logger: SimpleLogger)
    ensures
        logger.max_level() == level,
{
    SimpleLogger { max_level: level }
}

} // verus!
