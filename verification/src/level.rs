//! Severity levels and the textual filter expressions that select them.

use vstd::prelude::*;

verus! {

/// Ordered severity of an event, and the threshold a filter is configured
/// with. `Trace` is the least severe, `Error` the most severe.
#[derive(Clone, Copy, PartialEq, Eq, Structural, Debug)]
pub enum Level {
    Trace,
    Debug,
    Info,
    Warn,
    Error,
}

impl Level {
    /// Numeric rank of a severity: larger means more severe.
    pub open spec fn severity(self) -> int {
        match self {
            Level::Trace => 0,
            Level::Debug => 1,
            Level::Info => 2,
            Level::Warn => 3,
            Level::Error => 4,
        }
    }

    /// An event at severity `self` passes a filter configured at `threshold`
    /// exactly when it is at least as severe as the threshold.
    pub fn passes(self, threshold: Level) -> (r: bool)
        ensures
            r == (self.severity() >= threshold.severity()),
    {
        self.rank() >= threshold.rank()
    }

    /// Executable form of `severity`.
    pub fn rank(self) -> (r: u8)
        ensures
            r as int == self.severity(),
    {
        match self {
            Level::Trace => 0,
            Level::Debug => 1,
            Level::Info => 2,
            Level::Warn => 3,
            Level::Error => 4,
        }
    }
}

/// What a well-formed filter expression denotes: exactly the five severity
/// words select their level; every other string is invalid.
pub open spec fn parse_level_spec(s: Seq<char>) -> Option<Level> {
    if s == "trace"@ {
        Option::Some(Level::Trace)
    } else if s == "debug"@ {
        Option::Some(Level::Debug)
    } else if s == "info"@ {
        Option::Some(Level::Info)
    } else if s == "warn"@ {
        Option::Some(Level::Warn)
    } else if s == "error"@ {
        Option::Some(Level::Error)
    } else {
        Option::None
    }
}

/// Parse a filter expression into the severity threshold it denotes, or
/// `None` when the expression is not one of the five severity words.
pub fn parse_level(s: &str) -> (r: Option<Level>)
    ensures
        r == parse_level_spec(s@),
{
    let owned = String::from_str(s);
    if owned == String::from_str("trace") {
        Option::Some(Level::Trace)
    } else if owned == String::from_str("debug") {
        Option::Some(Level::Debug)
    } else if owned == String::from_str("info") {
        Option::Some(Level::Info)
    } else if owned == String::from_str("warn") {
        Option::Some(Level::Warn)
    } else if owned == String::from_str("error") {
        Option::Some(Level::Error)
    } else {
        Option::None
    }
}

/// Resolve a possibly absent or invalid filter expression to a threshold:
/// a valid expression wins, anything else falls back to `default`. This
/// never fails.
pub fn resolve_level(expr: &str, default: Level) -> (r: Level)
    ensures
        parse_level_spec(expr@) is Some ==> r == parse_level_spec(expr@)->Some_0,
        parse_level_spec(expr@) is None ==> r == default,
{
    match parse_level(expr) {
        Option::Some(l) => l,
        Option::None => default,
    }
}

} // verus!
