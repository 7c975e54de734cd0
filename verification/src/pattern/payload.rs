//! The pattern item that renders a record's payload text.

use vstd::prelude::*;
use crate::StringBuf;
use vstd::string::StringExecFns;
use crate::error::FormatError;
use crate::local_time_cacher::{LocalTimeCacher, TimeDate};
use crate::pattern_formatter::{FieldKind, Pattern, PatternContext};
use crate::record::Record;

verus! {

/// A pattern that writes the payload of a log record into the output.
/// Example: `log message`.
#[derive(Clone, Copy, Default, PartialEq, Eq, Structural, Debug)]
pub struct Payload {}

impl Pattern for Payload {
    open spec fn uses_time(&self) -> bool {
        false
    }

    open spec fn spec_rendered(&self, record: &Record, td: TimeDate) -> Seq<char> {
        crate::pattern_formatter::spec_render_field(FieldKind::Payload, record, td)
    }

    fn format(
        &self,
        record: &Record,
        dest: &mut StringBuf,
        ctx: &mut PatternContext,
        cacher: &mut LocalTimeCacher,
    ) -> (r: Result<(), FormatError>) {
        dest.append(record.payload());
        Ok(())
    }
}

} // verus!
