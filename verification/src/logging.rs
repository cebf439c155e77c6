//! Log levels and their labels.

use vstd::prelude::*;
use crate::text::concat3;

verus! {

/// The severity of a log line.
pub enum Level {
    Info,
    Warn,
    Error,
    Debug,
}

/// The label printed for each level.
pub open spec fn level_label(level: Level) -> Seq<char> {
    match level {
        Level::Info => "INFO"@,
        Level::Warn => "WARN"@,
        Level::Error => "ERROR"@,
        Level::Debug => "DEBUG"@,
    }
}

impl Level {
    /// The upper-case label of the level.
    pub fn as_str(&self) -> (r: &'static str)
        ensures
            r@ == level_label(*self),
    {
        match self {
            Level::Info => "INFO",
            Level::Warn => "WARN",
            Level::Error => "ERROR",
            Level::Debug => "DEBUG",
        }
    }
}

/// "[<level>] <message>".
pub fn format_log_message(level: &str, message: &str) -> (r: String)
    ensures
        r@ == "["@ + level@ + "] "@ + message@,
{
    let mut r = concat3("[", level, "] ");
    r.append(message);
    r
}

} // verus!
