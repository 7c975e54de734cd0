//! Record formatting for an in-process structured logger.
//!
//! The crate turns a captured log event (level, timestamp, payload text,
//! optional logger name, optional source location, thread id) into text ready
//! for delivery by a sink. It contains a small template compiler producing a
//! compiled pattern, a cache of local-calendar decompositions recomputed at
//! most once per represented second, and the built-in formatters.

use vstd::prelude::*;

pub mod digits;
pub mod error;
pub mod formatter;
pub mod full_formatter;
pub mod iso8601_datetime_formatter;
pub mod journald_formatter;
pub mod level;
pub mod local_time_cacher;
pub mod pattern;
pub mod pattern_formatter;
pub mod record;
pub mod rotation;

pub use crate::error::{FormatError, TemplateError};
pub use crate::formatter::{FmtExtraInfo, Formatter};
pub use crate::full_formatter::FullFormatter;
pub use crate::iso8601_datetime_formatter::CommlibFormatter;
pub use crate::journald_formatter::JournaldFormatter;
pub use crate::level::Level;
pub use crate::local_time_cacher::LocalTimeCacher;
pub use crate::pattern_formatter::{CompiledPattern, PatternFormatter};
pub use crate::record::{Record, SourceLocation, Timestamp};

verus! {

/// The growable text destination every formatter appends to.
pub type StringBuf = String;

/// The end-of-line token appended by formatters that close their lines.
pub const EOL: &'static str = "\n";

/// How much capacity a formatter asks its output buffer to hold before it
/// writes, so that typical lines append without reallocation.
pub const RESERVE_SIZE: usize = 256;

/// The text that `EOL` holds, as a sequence of characters.
pub open spec fn spec_eol() -> Seq<char> {
    seq!['\n']
}

/// `EOL` is the single line-feed character.
pub proof fn lemma_eol()
    ensures
        EOL@ == spec_eol(),
{
    reveal_strlit("\n");
    assert(EOL@ =~= spec_eol());
}

} // verus!
