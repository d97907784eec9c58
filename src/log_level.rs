use vstd::prelude::*;

use crate::text::text_eq;

verus! {

/// Verbosity of the agent's logging: a closed set of four levels.
#[derive(Debug, Clone, Copy, PartialEq, Eq, Structural)]
pub enum LogLevel {
    Debug,
    Info,
    Warn,
    Error,
}

/// The canonical lowercase token of a level, used for input and output alike.
pub open spec fn level_name(l: LogLevel) -> Seq<char> {
    match l {
        LogLevel::Debug => "debug"@,
        LogLevel::Info => "info"@,
        LogLevel::Warn => "warn"@,
        LogLevel::Error => "error"@,
    }
}

/// The level whose canonical token is exactly `t` (case-sensitive), if any.
pub open spec fn level_of_token(t: Seq<char>) -> Option<LogLevel> {
    if t == "debug"@ {
        Some(LogLevel::Debug)
    } else if t == "info"@ {
        Some(LogLevel::Info)
    } else if t == "warn"@ {
        Some(LogLevel::Warn)
    } else if t == "error"@ {
        Some(LogLevel::Error)
    } else {
        None
    }
}

impl LogLevel {
    /// The canonical token of this level.
    pub fn as_str(&self) -> (r: &'static str)
        ensures
            r@ == level_name(*self),
    {
        match self {
            LogLevel::Debug => "debug",
            LogLevel::Info => "info",
            LogLevel::Warn => "warn",
            LogLevel::Error => "error",
        }
    }

    /// The canonical token of this level, as an owned string.
    pub fn to_string(&self) -> (r: String)
        ensures
            r@ == level_name(*self),
    {
        self.as_str().to_owned()
    }

    /// Reads a level from its canonical token; any other text gives `None`.
    pub fn from_token(t: &str) -> (r: Option<LogLevel>)
        ensures
            r == level_of_token(t@),
    {
        if text_eq(t, "debug") {
            Some(LogLevel::Debug)
        } else if text_eq(t, "info") {
            Some(LogLevel::Info)
        } else if text_eq(t, "warn") {
            Some(LogLevel::Warn)
        } else if text_eq(t, "error") {
            Some(LogLevel::Error)
        } else {
            None
        }
    }
}

/// Reading the token of a level gives that level back, and a token that
/// reads as a level is that level's token.
pub proof fn lemma_level_round_trip(l: LogLevel, t: Seq<char>)
    ensures
        level_of_token(level_name(l)) == Some(l),
        level_of_token(t) == Some(l) ==> level_name(l) == t,
{
    reveal_strlit("debug");
    reveal_strlit("info");
    reveal_strlit("warn");
    reveal_strlit("error");
    assert("debug"@[0] != "info"@[0]);
    assert("debug"@[0] != "warn"@[0]);
    assert("debug"@[0] != "error"@[0]);
    assert("info"@[0] != "warn"@[0]);
    assert("info"@[0] != "error"@[0]);
    assert("warn"@[0] != "error"@[0]);
}

} // verus!
