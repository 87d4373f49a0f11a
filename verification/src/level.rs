//! Severity levels and their ordering.

use vstd::prelude::*;

verus! {

/// Severity of a record, from the most verbose (`Trace`) to the most severe (`Error`).
#[derive(Clone, Copy, Debug, PartialEq, Eq, Structural)]
pub enum Level {
    Trace,
    Debug,
    Info,
    Warn,
    Error,
}

impl Level {
    /// Position of the level on the severity scale: `Trace` is 0, `Error` is 4.
    pub open spec fn severity(self) -> nat {
        match self {
            Level::Trace => 0,
            Level::Debug => 1,
            Level::Info => 2,
            Level::Warn => 3,
            Level::Error => 4,
        }
    }

    /// The tag that stands for the level on the wire.
    pub open spec fn name(self) -> Seq<char> {
        match self {
            Level::Trace => "TRACE"@,
            Level::Debug => "DEBUG"@,
            Level::Info => "INFO"@,
            Level::Warn => "WARN"@,
            Level::Error => "ERROR"@,
        }
    }

    /// A record of level `self` passes a threshold exactly when it is at least as severe.
    pub open spec fn passes(self, threshold: Level) -> bool {
        self.severity() >= threshold.severity()
    }

    /// Executable form of [`Level::severity`].
    pub fn rank(self) -> (r: u8)
        ensures
            r as nat == self.severity(),
            r <= 4,
    {
        match self {
            Level::Trace => 0,
            Level::Debug => 1,
            Level::Info => 2,
            Level::Warn => 3,
            Level::Error => 4,
        }
    }

    /// Whether a record of level `self` passes `threshold`.
    pub fn at_least(self, threshold: Level) -> (b: bool)
        ensures
            b == self.passes(threshold),
    {
        self.rank() >= threshold.rank()
    }

    /// The tag of the level, as the `log` crate spells it.
    pub fn as_str(self) -> (name: &'static str)
        ensures
            name@ == self.name(),
    {
        level_name(self)
    }
}

/// Calls `log::Level::as_str` on the `log` level of the same name. That function indexes a
/// fixed table of upper-case names by the level: the contract spells out the five entries.
#[verifier::external_body]
fn level_name(level: Level) -> (name: &'static str)
    ensures
        name@ == level.name(),
{
    let outside = match level {
        Level::Trace => log::Level::Trace,
        Level::Debug => log::Level::Debug,
        Level::Info => log::Level::Info,
        Level::Warn => log::Level::Warn,
        Level::Error => log::Level::Error,
    };
    outside.as_str()
}

/// Calls `log::set_max_level` with the filter of the same name as `level`, so that the
/// `log` macros drop what this threshold would drop. It returns nothing; nothing is claimed.
#[verifier::external_body]
pub(crate) fn publish_max_level(level: Level) {
    let filter = match level {
        Level::Trace => log::LevelFilter::Trace,
        Level::Debug => log::LevelFilter::Debug,
        Level::Info => log::LevelFilter::Info,
        Level::Warn => log::LevelFilter::Warn,
        Level::Error => log::LevelFilter::Error,
    };
    log::set_max_level(filter);
}

} // verus!
