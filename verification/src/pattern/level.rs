//! The pattern items that render a record's severity.

use vstd::prelude::*;
use crate::StringBuf;
use vstd::string::StringExecFns;
use crate::error::FormatError;
use crate::local_time_cacher::{LocalTimeCacher, TimeDate};
use crate::pattern_formatter::{FieldKind, Pattern, PatternContext};
use crate::record::Record;

verus! {

/// A pattern that writes the level of a log record into the output.
/// Examples: `critical`, `error`, `warn`.
#[derive(Clone, Copy, Default, PartialEq, Eq, Structural, Debug)]
pub struct Level {}

impl Pattern for Level {
    open spec fn uses_time(&self) -> bool {
        false
    }

    open spec fn spec_rendered(&self, record: &Record, td: TimeDate) -> Seq<char> {
        crate::pattern_formatter::spec_render_field(FieldKind::Level, record, td)
    }

    fn format(
        &self,
        record: &Record,
        dest: &mut StringBuf,
        ctx: &mut PatternContext,
        cacher: &mut LocalTimeCacher,
    ) -> (r: Result<(), FormatError>) {
        dest.append(record.level().as_str());
        Ok(())
    }
}

/// A pattern that writes the level in a shorter form of a log record into
/// the output. Examples: `C`, `E`, `W`.
#[derive(Clone, Copy, Default, PartialEq, Eq, Structural, Debug)]
pub struct ShortLevel {}

impl Pattern for ShortLevel {
    open spec fn uses_time(&self) -> bool {
        false
    }

    open spec fn spec_rendered(&self, record: &Record, td: TimeDate) -> Seq<char> {
        crate::pattern_formatter::spec_render_field(FieldKind::ShortLevel, record, td)
    }

    fn format(
        &self,
        record: &Record,
        dest: &mut StringBuf,
        ctx: &mut PatternContext,
        cacher: &mut LocalTimeCacher,
    ) -> (r: Result<(), FormatError>) {
        dest.append(record.level().as_short_str());
        Ok(())
    }
}

} // verus!
