//! The full-info formatter, the default for sinks. A line looks like
//! `[2012-03-04 05:06:07.890] [warn] the payload`, with the logger name in
//! its own bracket pair when present and the source location after the
//! level, and the style range spans the level word.

use vstd::prelude::*;
use crate::StringBuf;
use vstd::string::{StrSliceExecFns, StringExecFns};
use crate::digits::{push_dec_pad, push_dec_u64, reserve, spec_dec, spec_dec_pad};
use crate::error::FormatError;
use crate::formatter::{cache_td, FmtExtraInfo, Formatter};
use crate::level::spec_level_str;
use crate::local_time_cacher::{spec_full_second, LocalTimeCacher, TimeDate};
use crate::record::Record;
use crate::{lemma_eol, spec_eol, EOL, RESERVE_SIZE};

verus! {

/// Everything the full formatter writes before the level word: `[`, the
/// full-second string, `.`, the three-digit milliseconds, `] [`, and
/// `name] [` when the record carries a logger name.
pub open spec fn spec_full_head(r: &Record, td: TimeDate) -> Seq<char> {
    seq!['['] + spec_full_second(td) + seq!['.'] + spec_dec_pad(
        (td.nanosecond / 1_000_000) as nat,
        3,
    ) + seq![']', ' ', '['] + (match r.logger_name {
        Some(n) => n@ + seq![']', ' ', '['],
        None => Seq::empty(),
    })
}

/// What the full formatter writes after the level word: the source location
/// when present, `] `, the payload, and the end-of-line token when
/// configured.
pub open spec fn spec_full_tail(with_eol: bool, r: &Record) -> Seq<char> {
    (match r.source_location {
        Some(l) => seq![']', ' ', '['] + l.module@ + seq![',', ' '] + l.file@ + seq![':']
            + spec_dec(l.line as nat),
        None => Seq::empty(),
    }) + seq![']', ' '] + r.payload@ + (if with_eol {
        spec_eol()
    } else {
        Seq::empty()
    })
}

/// The complete line the full formatter appends for one record.
pub open spec fn spec_full_format(with_eol: bool, r: &Record, td: TimeDate) -> Seq<char> {
    spec_full_head(r, td) + spec_level_str(r.level) + spec_full_tail(with_eol, r)
}

/// A full info log records formatter; the default formatter for sinks.
#[derive(Clone, Copy, PartialEq, Eq, Structural, Debug)]
pub struct FullFormatter {
    pub with_eol: bool,
}

impl FullFormatter {
    /// Constructs a `FullFormatter` that closes each line.
    pub fn new() -> (r: FullFormatter)
        ensures
            r.with_eol,
    {
        FullFormatter { with_eol: true }
    }

    /// Constructs a `FullFormatter` that leaves lines open.
    pub fn without_eol() -> (r: FullFormatter)
        ensures
            !r.with_eol,
    {
        FullFormatter { with_eol: false }
    }
}

impl Default for FullFormatter {
    /// The default full formatter closes each line.
    fn default() -> (r: FullFormatter)
        ensures
            r.with_eol,
    {
        FullFormatter { with_eol: true }
    }
}

impl Formatter for FullFormatter {
    open spec fn uses_time(&self) -> bool {
        true
    }

    open spec fn spec_rendered(&self, record: &Record, td: TimeDate) -> Seq<char> {
        spec_full_format(self.with_eol, record, td)
    }

    open spec fn spec_style(&self, record: &Record, td: TimeDate, base: int) -> Option<
        (int, int),
    > {
        let begin = base + spec_full_head(record, td).len();
        Some((begin, begin + spec_level_str(record.level).len()))
    }

    #[verifier::rlimit(60)]
    fn format(&self, record: &Record, dest: &mut StringBuf, cacher: &mut LocalTimeCacher) -> (r:
        Result<FmtExtraInfo, FormatError>) {
        let td = match cacher.get(record.time()) {
            Ok(td) => td,
            Err(e) => {
                return Err(e);
            },
        };
        reserve(dest, RESERVE_SIZE);
        proof {
            reveal_strlit("[");
            reveal_strlit(".");
            reveal_strlit("] [");
            reveal_strlit(", ");
            reveal_strlit(":");
            reveal_strlit("] ");
            lemma_eol();
        }
        dest.append("[");
        let fs = td.full_second_str();
        dest.append(fs.as_str());
        dest.append(".");
        push_dec_pad(dest, td.millisecond() as u64, 3);
        dest.append("] [");
        if let Some(name) = record.logger_name() {
            dest.append(name);
            dest.append("] [");
        }
        proof {
            assert(dest@ =~= old(dest)@ + spec_full_head(record, td));
        }
        let style_begin = dest.as_str().unicode_len();
        dest.append(record.level().as_str());
        let style_end = dest.as_str().unicode_len();
        if let Some(loc) = record.source_location() {
            dest.append("] [");
            dest.append(loc.module());
            dest.append(", ");
            dest.append(loc.file());
            dest.append(":");
            push_dec_u64(dest, loc.line() as u64);
        }
        dest.append("] ");
        dest.append(record.payload());
        if self.with_eol {
            dest.append(EOL);
        }
        proof {
            assert(dest@ =~= old(dest)@ + spec_full_format(self.with_eol, record, td));
        }
        Ok(FmtExtraInfo { style_range: Some((style_begin, style_end)) })
    }

    fn duplicate(&self) -> (r: Self) {
        FullFormatter { with_eol: self.with_eol }
    }
}

} // verus!
