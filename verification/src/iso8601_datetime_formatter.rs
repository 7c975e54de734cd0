//! The ISO-8601 formatter. A line looks like
//! `[2012-03-04T05:06:07.000000000+00:00] warn: the payload 0`, with the
//! optional source location as ` [file:line]` before the trailing space and
//! thread id, and the style range spans the level word.

use vstd::prelude::*;
use crate::StringBuf;
use vstd::string::{StrSliceExecFns, StringExecFns};
use crate::digits::{push_dec_u64, reserve, spec_dec};
use crate::error::FormatError;
use crate::formatter::{FmtExtraInfo, Formatter};
use crate::level::spec_level_str;
use crate::local_time_cacher::{spec_iso_8601, LocalTimeCacher, TimeDate};
use crate::record::{spec_basename, Record};
use crate::{lemma_eol, spec_eol, EOL, RESERVE_SIZE};

verus! {

/// Everything this formatter writes before the level word: `[`, the
/// RFC-3339 instant with nanosecond precision and local offset, `] `.
pub open spec fn spec_iso_head(td: TimeDate) -> Seq<char> {
    seq!['['] + spec_iso_8601(td) + seq![']', ' ']
}

/// What this formatter writes after the level word: `: `, the payload, the
/// source location as ` [file:line]` when present, a space, the thread id,
/// and the end-of-line token when configured.
pub open spec fn spec_iso_tail(with_eol: bool, r: &Record) -> Seq<char> {
    seq![':', ' '] + r.payload@ + (match r.source_location {
        Some(l) => seq![' ', '['] + spec_basename(l.file@) + seq![':'] + spec_dec(l.line as nat)
            + seq![']'],
        None => Seq::empty(),
    }) + seq![' '] + spec_dec(r.tid as nat) + (if with_eol {
        spec_eol()
    } else {
        Seq::empty()
    })
}

/// The complete line this formatter appends for one record.
pub open spec fn spec_iso_format(with_eol: bool, r: &Record, td: TimeDate) -> Seq<char> {
    spec_iso_head(td) + spec_level_str(r.level) + spec_iso_tail(with_eol, r)
}

/// An ISO-8601 datetime log records formatter.
#[derive(Clone, Copy, PartialEq, Eq, Structural, Debug)]
pub struct CommlibFormatter {
    pub with_eol: bool,
}

impl CommlibFormatter {
    /// Constructs a `CommlibFormatter` that closes each line.
    pub fn new() -> (r: CommlibFormatter)
        ensures
            r.with_eol,
    {
        CommlibFormatter { with_eol: true }
    }

    /// Constructs a `CommlibFormatter` that leaves lines open.
    pub fn without_eol() -> (r: CommlibFormatter)
        ensures
            !r.with_eol,
    {
        CommlibFormatter { with_eol: false }
    }
}

impl Default for CommlibFormatter {
    /// The default ISO-8601 formatter closes each line.
    fn default() -> (r: CommlibFormatter)
        ensures
            r.with_eol,
    {
        CommlibFormatter { with_eol: true }
    }
}

impl Formatter for CommlibFormatter {
    open spec fn uses_time(&self) -> bool {
        true
    }

    open spec fn spec_rendered(&self, record: &Record, td: TimeDate) -> Seq<char> {
        spec_iso_format(self.with_eol, record, td)
    }

    open spec fn spec_style(&self, record: &Record, td: TimeDate, base: int) -> Option<
        (int, int),
    > {
        let begin = base + spec_iso_head(td).len();
        Some((begin, begin + spec_level_str(record.level).len()))
    }

    #[verifier::rlimit(60)]
    fn format(&self, record: &Record, dest: &mut StringBuf, cacher: &mut LocalTimeCacher) -> (r:
        Result<FmtExtraInfo, FormatError>) {
        let td = match cacher.get(record.time()) {
            Ok(td) => td,
            Err(e) => {
                return Err(e);
            },
        };
        reserve(dest, RESERVE_SIZE);
        proof {
            reveal_strlit("[");
            reveal_strlit("] ");
            reveal_strlit(": ");
            reveal_strlit(" [");
            reveal_strlit(":");
            reveal_strlit("]");
            reveal_strlit(" ");
            lemma_eol();
        }
        dest.append("[");
        let iso = td.full_iso_8601_str();
        dest.append(iso.as_str());
        dest.append("] ");
        proof {
            assert(dest@ =~= old(dest)@ + spec_iso_head(td));
        }
        let style_begin = dest.as_str().unicode_len();
        dest.append(record.level().as_str());
        let style_end = dest.as_str().unicode_len();
        dest.append(": ");
        dest.append(record.payload());
        if let Some(loc) = record.source_location() {
            dest.append(" [");
            dest.append(loc.file_name());
            dest.append(":");
            push_dec_u64(dest, loc.line() as u64);
            dest.append("]");
        }
        dest.append(" ");
        push_dec_u64(dest, record.tid());
        if self.with_eol {
            dest.append(EOL);
        }
        proof {
            assert(dest@ =~= old(dest)@ + spec_iso_format(self.with_eol, record, td));
        }
        Ok(FmtExtraInfo { style_range: Some((style_begin, style_end)) })
    }

    fn duplicate(&self) -> (r: Self) {
        CommlibFormatter { with_eol: self.with_eol }
    }
}

} // verus!
