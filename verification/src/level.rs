use vstd::prelude::*;
use crate::text::{as_chars, chars_eq_str, lower_chars, spec_to_lower};

verus! {

/// A log level, from most to least severe.
#[derive(Clone, Copy, Debug, PartialEq, Eq, Hash, Structural)]
pub enum Level {
    Error,
    Warn,
    Info,
    Debug,
    Trace,
}

/// A logging threshold: a level, or logging turned off.
#[derive(Clone, Copy, Debug, PartialEq, Eq, Hash, Structural)]
pub enum LevelFilter {
    Off,
    Error,
    Warn,
    Info,
    Debug,
    Trace,
}

/// The numeric severity order of the levels: `Error` is lowest, so a record
/// passes a threshold when its level's rank is at most the threshold's rank.
pub open spec fn level_rank(l: Level) -> int {
    match l {
        Level::Error => 1,
        Level::Warn => 2,
        Level::Info => 3,
        Level::Debug => 4,
        Level::Trace => 5,
    }
}

/// What parsing a level name returns: a case-insensitive match of the five
/// level names; anything else, the word for "off" included, is no level.
pub open spec fn spec_level_from_str(s: Seq<char>) -> Option<Level> {
    let t = spec_to_lower(s);
    if t == "error"@ {
        Some(Level::Error)
    } else if t == "warn"@ {
        Some(Level::Warn)
    } else if t == "info"@ {
        Some(Level::Info)
    } else if t == "debug"@ {
        Some(Level::Debug)
    } else if t == "trace"@ {
        Some(Level::Trace)
    } else {
        None
    }
}

/// What parsing a threshold name returns: the five level names or "off",
/// case-insensitively.
pub open spec fn spec_levelfilter_from_str(s: Seq<char>) -> Option<LevelFilter> {
    let t = spec_to_lower(s);
    if t == "off"@ {
        Some(LevelFilter::Off)
    } else {
        match spec_level_from_str(s) {
            Some(l) => Some(level_to_filter(l)),
            None => None,
        }
    }
}

/// The threshold that admits exactly the given level and the ones above it.
pub open spec fn level_to_filter(l: Level) -> LevelFilter {
    match l {
        Level::Error => LevelFilter::Error,
        Level::Warn => LevelFilter::Warn,
        Level::Info => LevelFilter::Info,
        Level::Debug => LevelFilter::Debug,
        Level::Trace => LevelFilter::Trace,
    }
}

impl Level {
    /// Whether this level is at most as verbose as `other`.
    pub fn le(self, other: Level) -> (r: bool)
        ensures
            r == (level_rank(self) <= level_rank(other)),
    {
        let a: u8 = match self {
            Level::Error => 1,
            Level::Warn => 2,
            Level::Info => 3,
            Level::Debug => 4,
            Level::Trace => 5,
        };
        let b: u8 = match other {
            Level::Error => 1,
            Level::Warn => 2,
            Level::Info => 3,
            Level::Debug => 4,
            Level::Trace => 5,
        };
        a <= b
    }

    /// Parses a level name, case-insensitively; the word for "off" is not a
    /// level.
    pub fn from_str(s: &str) -> (r: Option<Level>)
        ensures
            r == spec_level_from_str(s@),
    {
        let chars = as_chars(s);
        let low = lower_chars(&chars);
        proof {
            reveal_strlit("error");
            reveal_strlit("warn");
            reveal_strlit("info");
            reveal_strlit("debug");
            reveal_strlit("trace");
        }
        if chars_eq_str(&low, "error") {
            Some(Level::Error)
        } else if chars_eq_str(&low, "warn") {
            Some(Level::Warn)
        } else if chars_eq_str(&low, "info") {
            Some(Level::Info)
        } else if chars_eq_str(&low, "debug") {
            Some(Level::Debug)
        } else if chars_eq_str(&low, "trace") {
            Some(Level::Trace)
        } else {
            None
        }
    }

    /// The numeric code this level carries at the write entry point: most
    /// verbose is lowest.
    pub fn from_code(code: u8) -> (r: Option<Level>)
        ensures
            r == spec_level_from_code(code),
    {
        match code {
            1 => Some(Level::Trace),
            2 => Some(Level::Debug),
            3 => Some(Level::Info),
            4 => Some(Level::Warn),
            5 => Some(Level::Error),
            _ => None,
        }
    }
}

/// The level behind a numeric write code; codes outside 1 to 5 carry none.
pub open spec fn spec_level_from_code(code: u8) -> Option<Level> {
    if code == 1 {
        Some(Level::Trace)
    } else if code == 2 {
        Some(Level::Debug)
    } else if code == 3 {
        Some(Level::Info)
    } else if code == 4 {
        Some(Level::Warn)
    } else if code == 5 {
        Some(Level::Error)
    } else {
        None
    }
}

impl LevelFilter {
    /// Parses a threshold name, case-insensitively; "off" is accepted here.
    pub fn from_str(s: &str) -> (r: Option<LevelFilter>)
        ensures
            r == spec_levelfilter_from_str(s@),
    {
        let chars = as_chars(s);
        let low = lower_chars(&chars);
        proof {
            reveal_strlit("off");
        }
        if chars_eq_str(&low, "off") {
            Some(LevelFilter::Off)
        } else {
            match Level::from_str(s) {
                Some(l) => Some(
                    match l {
                        Level::Error => LevelFilter::Error,
                        Level::Warn => LevelFilter::Warn,
                        Level::Info => LevelFilter::Info,
                        Level::Debug => LevelFilter::Debug,
                        Level::Trace => LevelFilter::Trace,
                    },
                ),
                None => None,
            }
        }
    }
}

} // verus!
