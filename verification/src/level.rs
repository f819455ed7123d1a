//! Log severities and the names they are written and selected by.

use vstd::prelude::*;
use crate::text::same_text;

verus! {

/// Severity of a log message, from least to most severe.
#[derive(Debug, Clone, Copy, PartialEq, Eq, PartialOrd, Structural)]
pub enum LogLevel {
    Trace,
    Debug,
    Info,
    Warn,
    Error,
}

pub const DBG: LogLevel = LogLevel::Debug;

pub const ERR: LogLevel = LogLevel::Error;

pub const INF: LogLevel = LogLevel::Info;

pub const WAR: LogLevel = LogLevel::Warn;

impl LogLevel {
    /// Position in the severity order: `Trace` is 0, `Error` is 4.
    pub open spec fn rank(self) -> nat {
        match self {
            LogLevel::Trace => 0,
            LogLevel::Debug => 1,
            LogLevel::Info => 2,
            LogLevel::Warn => 3,
            LogLevel::Error => 4,
        }
    }

    /// The name a level is printed under: its variant name.
    pub open spec fn name(self) -> Seq<char> {
        match self {
            LogLevel::Trace => "Trace"@,
            LogLevel::Debug => "Debug"@,
            LogLevel::Info => "Info"@,
            LogLevel::Warn => "Warn"@,
            LogLevel::Error => "Error"@,
        }
    }

    /// Position in the severity order.
    pub fn severity(self) -> (r: u8)
        ensures
            r == self.rank(),
    {
        match self {
            LogLevel::Trace => 0,
            LogLevel::Debug => 1,
            LogLevel::Info => 2,
            LogLevel::Warn => 3,
            LogLevel::Error => 4,
        }
    }

    /// The name a level is printed under.
    pub fn label(self) -> (r: &'static str)
        ensures
            r@ == self.name(),
    {
        match self {
            LogLevel::Trace => "Trace",
            LogLevel::Debug => "Debug",
            LogLevel::Info => "Info",
            LogLevel::Warn => "Warn",
            LogLevel::Error => "Error",
        }
    }
}

/// The level selected by a command-line word, if the word is one of
/// `trace`, `debug`, `dbg`, `info`, `inf`, `warn`, `warning`, `error`, `err`.
pub open spec fn level_of(word: Seq<char>) -> Option<LogLevel> {
    if word == "trace"@ {
        Some(LogLevel::Trace)
    } else if word == "debug"@ || word == "dbg"@ {
        Some(LogLevel::Debug)
    } else if word == "info"@ || word == "inf"@ {
        Some(LogLevel::Info)
    } else if word == "warn"@ || word == "warning"@ {
        Some(LogLevel::Warn)
    } else if word == "error"@ || word == "err"@ {
        Some(LogLevel::Error)
    } else {
        None
    }
}

/// Reads a level from its command-line word; `None` for any other word.
pub fn get_level(lvl: &str) -> (r: Option<LogLevel>)
    ensures
        r == level_of(lvl@),
{
    if same_text(lvl, "trace") {
        Some(LogLevel::Trace)
    } else if same_text(lvl, "debug") || same_text(lvl, "dbg") {
        Some(LogLevel::Debug)
    } else if same_text(lvl, "info") || same_text(lvl, "inf") {
        Some(LogLevel::Info)
    } else if same_text(lvl, "warn") || same_text(lvl, "warning") {
        Some(LogLevel::Warn)
    } else if same_text(lvl, "error") || same_text(lvl, "err") {
        Some(LogLevel::Error)
    } else {
        None
    }
}

} // verus!
