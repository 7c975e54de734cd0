//! The pattern item that closes a line.

use vstd::prelude::*;
use crate::StringBuf;
use vstd::string::StringExecFns;
use crate::error::FormatError;
use crate::local_time_cacher::{LocalTimeCacher, TimeDate};
use crate::pattern_formatter::{FieldKind, Pattern, PatternContext};
use crate::record::Record;

verus! {

/// A pattern that writes the end-of-line token into the output.
#[derive(Clone, Copy, Default, PartialEq, Eq, Structural, Debug)]
pub struct Eol {}

impl Pattern for Eol {
    open spec fn uses_time(&self) -> bool {
        false
    }

    open spec fn spec_rendered(&self, record: &Record, td: TimeDate) -> Seq<char> {
        crate::pattern_formatter::spec_render_field(FieldKind::Eol, record, td)
    }

    fn format(
        &self,
        record: &Record,
        dest: &mut StringBuf,
        ctx: &mut PatternContext,
        cacher: &mut LocalTimeCacher,
    ) -> (r: Result<(), FormatError>) {
        proof {
            crate::lemma_eol();
        }
        dest.append(crate::EOL);
        Ok(())
    }
}

} // verus!
