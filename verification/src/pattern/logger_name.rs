//! The pattern item that renders the logger's name.

use vstd::prelude::*;
use crate::StringBuf;
use vstd::string::StringExecFns;
use crate::error::FormatError;
use crate::local_time_cacher::{LocalTimeCacher, TimeDate};
use crate::pattern_formatter::{FieldKind, Pattern, PatternContext};
use crate::record::Record;

verus! {

/// A pattern that writes the logger's name into the output, or nothing when
/// the record has none. Example: `my-logger`.
#[derive(Clone, Copy, Default, PartialEq, Eq, Structural, Debug)]
pub struct LoggerName {}

impl Pattern for LoggerName {
    open spec fn uses_time(&self) -> bool {
        false
    }

    open spec fn spec_rendered(&self, record: &Record, td: TimeDate) -> Seq<char> {
        crate::pattern_formatter::spec_render_field(FieldKind::LoggerName, record, td)
    }

    fn format(
        &self,
        record: &Record,
        dest: &mut StringBuf,
        ctx: &mut PatternContext,
        cacher: &mut LocalTimeCacher,
    ) -> (r: Result<(), FormatError>) {
        if let Some(name) = record.logger_name() {
            dest.append(name);
        }
        proof {
            assert(dest@ =~= old(dest)@ + self.spec_rendered(
                record,
                crate::formatter::cache_td(*cacher, record.time),
            ));
        }
        Ok(())
    }
}

} // verus!
