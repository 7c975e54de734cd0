use vstd::prelude::*;

verus! {

/// Severity of a log record.
#[derive(Clone, Copy, PartialEq, Eq, Structural, Debug)]
pub enum Level {
    Trace,
    Debug,
    Info,
    Warn,
    Error,
    Critical,
    Off,
}

/// The full lower-case name of a level, e.g. `warn`.
pub open spec fn spec_level_str(l: Level) -> Seq<char> {
    match l {
        Level::Trace => "trace"@,
        Level::Debug => "debug"@,
        Level::Info => "info"@,
        Level::Warn => "warn"@,
        Level::Error => "error"@,
        Level::Critical => "critical"@,
        Level::Off => "off"@,
    }
}

/// The one-letter form of a level, e.g. `W`.
pub open spec fn spec_level_short_str(l: Level) -> Seq<char> {
    match l {
        Level::Trace => "T"@,
        Level::Debug => "D"@,
        Level::Info => "I"@,
        Level::Warn => "W"@,
        Level::Error => "E"@,
        Level::Critical => "C"@,
        Level::Off => "O"@,
    }
}

impl Level {
    /// The full lower-case name of the level.
    pub fn as_str(&self) -> (s: &'static str)
        ensures
            s@ == spec_level_str(*self),
    {
        match self {
            Level::Trace => "trace",
            Level::Debug => "debug",
            Level::Info => "info",
            Level::Warn => "warn",
            Level::Error => "error",
            Level::Critical => "critical",
            Level::Off => "off",
        }
    }

    /// The one-letter form of the level.
    pub fn as_short_str(&self) -> (s: &'static str)
        ensures
            s@ == spec_level_short_str(*self),
    {
        match self {
            Level::Trace => "T",
            Level::Debug => "D",
            Level::Info => "I",
            Level::Warn => "W",
            Level::Error => "E",
            Level::Critical => "C",
            Level::Off => "O",
        }
    }
}

} // verus!
