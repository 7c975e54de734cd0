//! The journal-style formatter: `[level] payload` with the logger name in a
//! leading bracket pair when present, always closing the line. A stopgap
//! until the pattern language supports optional fields, kept for its exact
//! output; it reads no instant, so it never consults the time cache.

use vstd::prelude::*;
use crate::StringBuf;
use vstd::string::{StrSliceExecFns, StringExecFns};
use crate::digits::reserve;
use crate::error::FormatError;
use crate::formatter::{FmtExtraInfo, Formatter};
use crate::level::spec_level_str;
use crate::local_time_cacher::{LocalTimeCacher, TimeDate};
use crate::record::Record;
use crate::{lemma_eol, spec_eol, EOL, RESERVE_SIZE};

verus! {

/// Everything this formatter writes before the level word: `[`, and
/// `name] [` when the record carries a logger name.
pub open spec fn spec_journald_head(r: &Record) -> Seq<char> {
    seq!['['] + (match r.logger_name {
        Some(n) => n@ + seq![']', ' ', '['],
        None => Seq::empty(),
    })
}

/// The complete line this formatter appends for one record.
pub open spec fn spec_journald_format(r: &Record) -> Seq<char> {
    spec_journald_head(r) + spec_level_str(r.level) + seq![']', ' '] + r.payload@ + spec_eol()
}

/// A journal-style log records formatter.
#[derive(Clone, Copy, PartialEq, Eq, Structural, Debug)]
pub struct JournaldFormatter {}

impl JournaldFormatter {
    /// Constructs a `JournaldFormatter`.
    pub fn new() -> (r: JournaldFormatter) {
        JournaldFormatter {  }
    }
}

impl Default for JournaldFormatter {
    fn default() -> (r: JournaldFormatter) {
        JournaldFormatter {  }
    }
}

impl Formatter for JournaldFormatter {
    open spec fn uses_time(&self) -> bool {
        false
    }

    open spec fn spec_rendered(&self, record: &Record, td: TimeDate) -> Seq<char> {
        spec_journald_format(record)
    }

    open spec fn spec_style(&self, record: &Record, td: TimeDate, base: int) -> Option<
        (int, int),
    > {
        let begin = base + spec_journald_head(record).len();
        Some((begin, begin + spec_level_str(record.level).len()))
    }

    fn format(&self, record: &Record, dest: &mut StringBuf, cacher: &mut LocalTimeCacher) -> (r:
        Result<FmtExtraInfo, FormatError>) {
        reserve(dest, RESERVE_SIZE);
        proof {
            reveal_strlit("[");
            reveal_strlit("] [");
            reveal_strlit("] ");
            lemma_eol();
        }
        dest.append("[");
        if let Some(name) = record.logger_name() {
            dest.append(name);
            dest.append("] [");
        }
        proof {
            assert(dest@ =~= old(dest)@ + spec_journald_head(record));
        }
        let style_begin = dest.as_str().unicode_len();
        dest.append(record.level().as_str());
        let style_end = dest.as_str().unicode_len();
        dest.append("] ");
        dest.append(record.payload());
        dest.append(EOL);
        proof {
            assert(dest@ =~= old(dest)@ + spec_journald_format(record));
        }
        Ok(FmtExtraInfo { style_range: Some((style_begin, style_end)) })
    }

    fn duplicate(&self) -> (r: Self) {
        JournaldFormatter {  }
    }
}

} // verus!
