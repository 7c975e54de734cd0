//! The pattern formatter: a template string such as `"[{time}] {payload}{eol}"`
//! is compiled once into an ordered sequence of items — literal runs and
//! built-in fields — executed in order for every record. A `{^...}` span
//! marks the items whose rendered text becomes the reported style range.

use vstd::prelude::*;
use crate::StringBuf;
use vstd::string::{StrSliceExecFns, StringExecFns};
use crate::digits::{
    push_char, push_dec_i64, push_dec_pad, push_dec_u64, spec_dec, spec_dec_pad, spec_dec_signed,
};
use crate::error::{FormatError, TemplateError};
use crate::formatter::{cache_td, range_matches, FmtExtraInfo, Formatter};
use crate::level::{spec_level_short_str, spec_level_str};
use crate::local_time_cacher::{
    spec_am_pm, spec_hour12, spec_month_full, spec_month_short, spec_tz_offset, spec_weekday_full,
    spec_weekday_short, LocalTimeCacher, TimeDate,
};
use crate::record::{spec_basename, Record};
use crate::spec_eol;
use crate::pattern_formatter::parse::{spec_opt_span, spec_parse};

pub mod parse;

verus! {

/// The closed set of built-in template fields.
#[derive(Clone, Copy, PartialEq, Eq, Structural, Debug)]
pub enum FieldKind {
    AbbrWeekdayName,
    WeekdayName,
    AbbrMonthName,
    MonthName,
    FullDateTime,
    ShortYear,
    Year,
    Date,
    ShortDate,
    Month,
    Day,
    Hour,
    Hour12,
    Minute,
    Second,
    Millisecond,
    Microsecond,
    Nanosecond,
    AmPm,
    Time12,
    ShortTime,
    Time,
    TzOffset,
    UnixTimestamp,
    Eol,
    Level,
    ShortLevel,
    LoggerName,
    Payload,
    Source,
    SourceFilename,
    SourceFile,
    SourceLine,
    SourceColumn,
    SourceModulePath,
    Tid,
}

/// The built-in field registered under `name`, if any.
pub open spec fn spec_field_of(name: Seq<char>) -> Option<FieldKind> {
    if name == "weekday_name"@ {
        Some(FieldKind::AbbrWeekdayName)
    } else if name == "weekday_name_full"@ {
        Some(FieldKind::WeekdayName)
    } else if name == "month_name"@ {
        Some(FieldKind::AbbrMonthName)
    } else if name == "month_name_full"@ {
        Some(FieldKind::MonthName)
    } else if name == "datetime"@ {
        Some(FieldKind::FullDateTime)
    } else if name == "year_short"@ {
        Some(FieldKind::ShortYear)
    } else if name == "year"@ {
        Some(FieldKind::Year)
    } else if name == "date"@ {
        Some(FieldKind::Date)
    } else if name == "date_short"@ {
        Some(FieldKind::ShortDate)
    } else if name == "month"@ {
        Some(FieldKind::Month)
    } else if name == "day"@ {
        Some(FieldKind::Day)
    } else if name == "hour"@ {
        Some(FieldKind::Hour)
    } else if name == "hour_12"@ {
        Some(FieldKind::Hour12)
    } else if name == "minute"@ {
        Some(FieldKind::Minute)
    } else if name == "second"@ {
        Some(FieldKind::Second)
    } else if name == "millisecond"@ {
        Some(FieldKind::Millisecond)
    } else if name == "microsecond"@ {
        Some(FieldKind::Microsecond)
    } else if name == "nanosecond"@ {
        Some(FieldKind::Nanosecond)
    } else if name == "am_pm"@ {
        Some(FieldKind::AmPm)
    } else if name == "time_12"@ {
        Some(FieldKind::Time12)
    } else if name == "time_short"@ {
        Some(FieldKind::ShortTime)
    } else if name == "time"@ {
        Some(FieldKind::Time)
    } else if name == "tz_offset"@ {
        Some(FieldKind::TzOffset)
    } else if name == "unix_timestamp"@ {
        Some(FieldKind::UnixTimestamp)
    } else if name == "eol"@ {
        Some(FieldKind::Eol)
    } else if name == "level"@ {
        Some(FieldKind::Level)
    } else if name == "level_short"@ {
        Some(FieldKind::ShortLevel)
    } else if name == "logger"@ {
        Some(FieldKind::LoggerName)
    } else if name == "payload"@ {
        Some(FieldKind::Payload)
    } else if name == "source"@ {
        Some(FieldKind::Source)
    } else if name == "file_name"@ {
        Some(FieldKind::SourceFilename)
    } else if name == "file"@ {
        Some(FieldKind::SourceFile)
    } else if name == "line"@ {
        Some(FieldKind::SourceLine)
    } else if name == "column"@ {
        Some(FieldKind::SourceColumn)
    } else if name == "module"@ {
        Some(FieldKind::SourceModulePath)
    } else if name == "tid"@ {
        Some(FieldKind::Tid)
    } else {
        None
    }
}

/// Whether two string slices hold the same characters.
pub fn str_eq(a: &str, b: &str) -> (r: bool)
    ensures
        r == (a@ == b@),
{
    let na = a.unicode_len();
    let nb = b.unicode_len();
    if na != nb {
        proof {
            assert(a@ != b@) by {
                if a@ == b@ {
                    assert(a@.len() == b@.len());
                }
            }
        }
        return false;
    }
    let mut i: usize = 0;
    while i < na
        invariant
            0 <= i <= na,
            na == a@.len(),
            na == b@.len(),
            forall|j: int| 0 <= j < i ==> a@[j] == b@[j],
        decreases na - i,
    {
        if a.get_char(i) != b.get_char(i) {
            return false;
        }
        i = i + 1;
    }
    proof {
        assert(a@ =~= b@);
    }
    true
}

/// The built-in field registered under `name`, if any.
pub fn field_of_name(name: &str) -> (r: Option<FieldKind>)
    ensures
        r == spec_field_of(name@),
{
    if str_eq(name, "weekday_name") {
        Some(FieldKind::AbbrWeekdayName)
    } else if str_eq(name, "weekday_name_full") {
        Some(FieldKind::WeekdayName)
    } else if str_eq(name, "month_name") {
        Some(FieldKind::AbbrMonthName)
    } else if str_eq(name, "month_name_full") {
        Some(FieldKind::MonthName)
    } else if str_eq(name, "datetime") {
        Some(FieldKind::FullDateTime)
    } else if str_eq(name, "year_short") {
        Some(FieldKind::ShortYear)
    } else if str_eq(name, "year") {
        Some(FieldKind::Year)
    } else if str_eq(name, "date") {
        Some(FieldKind::Date)
    } else if str_eq(name, "date_short") {
        Some(FieldKind::ShortDate)
    } else if str_eq(name, "month") {
        Some(FieldKind::Month)
    } else if str_eq(name, "day") {
        Some(FieldKind::Day)
    } else if str_eq(name, "hour") {
        Some(FieldKind::Hour)
    } else if str_eq(name, "hour_12") {
        Some(FieldKind::Hour12)
    } else if str_eq(name, "minute") {
        Some(FieldKind::Minute)
    } else if str_eq(name, "second") {
        Some(FieldKind::Second)
    } else if str_eq(name, "millisecond") {
        Some(FieldKind::Millisecond)
    } else if str_eq(name, "microsecond") {
        Some(FieldKind::Microsecond)
    } else if str_eq(name, "nanosecond") {
        Some(FieldKind::Nanosecond)
    } else if str_eq(name, "am_pm") {
        Some(FieldKind::AmPm)
    } else if str_eq(name, "time_12") {
        Some(FieldKind::Time12)
    } else if str_eq(name, "time_short") {
        Some(FieldKind::ShortTime)
    } else if str_eq(name, "time") {
        Some(FieldKind::Time)
    } else if str_eq(name, "tz_offset") {
        Some(FieldKind::TzOffset)
    } else if str_eq(name, "unix_timestamp") {
        Some(FieldKind::UnixTimestamp)
    } else if str_eq(name, "eol") {
        Some(FieldKind::Eol)
    } else if str_eq(name, "level") {
        Some(FieldKind::Level)
    } else if str_eq(name, "level_short") {
        Some(FieldKind::ShortLevel)
    } else if str_eq(name, "logger") {
        Some(FieldKind::LoggerName)
    } else if str_eq(name, "payload") {
        Some(FieldKind::Payload)
    } else if str_eq(name, "source") {
        Some(FieldKind::Source)
    } else if str_eq(name, "file_name") {
        Some(FieldKind::SourceFilename)
    } else if str_eq(name, "file") {
        Some(FieldKind::SourceFile)
    } else if str_eq(name, "line") {
        Some(FieldKind::SourceLine)
    } else if str_eq(name, "column") {
        Some(FieldKind::SourceColumn)
    } else if str_eq(name, "module") {
        Some(FieldKind::SourceModulePath)
    } else if str_eq(name, "tid") {
        Some(FieldKind::Tid)
    } else {
        None
    }
}

/// One executable item of a compiled pattern: a literal run or a field.
#[derive(Clone, Debug)]
pub enum PatternItem {
    Literal(String),
    Field(FieldKind),
}

/// The mathematical value of a pattern item.
pub enum SpecPatternItem {
    Literal(Seq<char>),
    Field(FieldKind),
}

impl View for PatternItem {
    type V = SpecPatternItem;

    open spec fn view(&self) -> SpecPatternItem {
        match self {
            PatternItem::Literal(s) => SpecPatternItem::Literal(s@),
            PatternItem::Field(k) => SpecPatternItem::Field(*k),
        }
    }
}

impl DeepView for PatternItem {
    type V = SpecPatternItem;

    open spec fn deep_view(&self) -> SpecPatternItem {
        self.view()
    }
}

/// Whether rendering this field reads the record's instant.
pub open spec fn spec_field_uses_time(k: FieldKind) -> bool {
    match k {
        FieldKind::Eol => false,
        FieldKind::Level => false,
        FieldKind::ShortLevel => false,
        FieldKind::LoggerName => false,
        FieldKind::Payload => false,
        FieldKind::Source => false,
        FieldKind::SourceFilename => false,
        FieldKind::SourceFile => false,
        FieldKind::SourceLine => false,
        FieldKind::SourceColumn => false,
        FieldKind::SourceModulePath => false,
        FieldKind::Tid => false,
        _ => true,
    }
}

/// The exact text one field renders for `r` under the decomposition `td`.
pub open spec fn spec_render_field(k: FieldKind, r: &Record, td: TimeDate) -> Seq<char> {
    match k {
        FieldKind::AbbrWeekdayName => spec_weekday_short(td.weekday as int),
        FieldKind::WeekdayName => spec_weekday_full(td.weekday as int),
        FieldKind::AbbrMonthName => spec_month_short(td.month as int),
        FieldKind::MonthName => spec_month_full(td.month as int),
        FieldKind::FullDateTime => spec_weekday_short(td.weekday as int) + seq![' ']
            + spec_month_short(td.month as int) + seq![' '] + spec_dec_pad(td.day as nat, 2)
            + seq![' '] + spec_dec_pad(td.hour as nat, 2) + seq![':'] + spec_dec_pad(
            td.minute as nat,
            2,
        ) + seq![':'] + spec_dec_pad(td.second as nat, 2) + seq![' '] + spec_dec_pad(
            td.year as nat,
            4,
        ),
        FieldKind::ShortYear => spec_dec_pad((td.year % 100) as nat, 2),
        FieldKind::Year => spec_dec_pad(td.year as nat, 4),
        FieldKind::Date => spec_dec_pad(td.year as nat, 4) + seq!['-'] + spec_dec_pad(
            td.month as nat,
            2,
        ) + seq!['-'] + spec_dec_pad(td.day as nat, 2),
        FieldKind::ShortDate => spec_dec_pad(td.month as nat, 2) + seq!['/'] + spec_dec_pad(
            td.day as nat,
            2,
        ) + seq!['/'] + spec_dec_pad((td.year % 100) as nat, 2),
        FieldKind::Month => spec_dec_pad(td.month as nat, 2),
        FieldKind::Day => spec_dec_pad(td.day as nat, 2),
        FieldKind::Hour => spec_dec_pad(td.hour as nat, 2),
        FieldKind::Hour12 => spec_dec_pad(spec_hour12(td.hour as int) as nat, 2),
        FieldKind::Minute => spec_dec_pad(td.minute as nat, 2),
        FieldKind::Second => spec_dec_pad(td.second as nat, 2),
        FieldKind::Millisecond => spec_dec_pad((td.nanosecond / 1_000_000) as nat, 3),
        FieldKind::Microsecond => spec_dec_pad((td.nanosecond / 1_000) as nat, 6),
        FieldKind::Nanosecond => spec_dec_pad(td.nanosecond as nat, 9),
        FieldKind::AmPm => spec_am_pm(td.hour as int),
        FieldKind::Time12 => spec_dec_pad(spec_hour12(td.hour as int) as nat, 2) + seq![':']
            + spec_dec_pad(td.minute as nat, 2) + seq![':'] + spec_dec_pad(td.second as nat, 2)
            + seq![' '] + spec_am_pm(td.hour as int),
        FieldKind::ShortTime => spec_dec_pad(td.hour as nat, 2) + seq![':'] + spec_dec_pad(
            td.minute as nat,
            2,
        ),
        FieldKind::Time => spec_dec_pad(td.hour as nat, 2) + seq![':'] + spec_dec_pad(
            td.minute as nat,
            2,
        ) + seq![':'] + spec_dec_pad(td.second as nat, 2),
        FieldKind::TzOffset => spec_tz_offset(td.tz_offset_secs as int),
        FieldKind::UnixTimestamp => spec_dec_signed(td.unix_timestamp as int),
        FieldKind::Eol => spec_eol(),
        FieldKind::Level => spec_level_str(r.level),
        FieldKind::ShortLevel => spec_level_short_str(r.level),
        FieldKind::LoggerName => match r.logger_name {
            Some(n) => n@,
            None => Seq::empty(),
        },
        FieldKind::Payload => r.payload@,
        FieldKind::Source => match r.source_location {
            Some(l) => l.file@ + seq![':'] + spec_dec(l.line as nat),
            None => Seq::empty(),
        },
        FieldKind::SourceFilename => match r.source_location {
            Some(l) => spec_basename(l.file@),
            None => Seq::empty(),
        },
        FieldKind::SourceFile => match r.source_location {
            Some(l) => l.file@,
            None => Seq::empty(),
        },
        FieldKind::SourceLine => match r.source_location {
            Some(l) => spec_dec(l.line as nat),
            None => Seq::empty(),
        },
        FieldKind::SourceColumn => match r.source_location {
            Some(l) => spec_dec(l.column as nat),
            None => Seq::empty(),
        },
        FieldKind::SourceModulePath => match r.source_location {
            Some(l) => l.module@,
            None => Seq::empty(),
        },
        FieldKind::Tid => spec_dec(r.tid as nat),
    }
}

/// The exact text one item renders.
pub open spec fn spec_render_item(t: SpecPatternItem, r: &Record, td: TimeDate) -> Seq<char> {
    match t {
        SpecPatternItem::Literal(l) => l,
        SpecPatternItem::Field(k) => spec_render_field(k, r, td),
    }
}

/// The exact text an item sequence renders: each item in order.
pub open spec fn spec_render_items(ts: Seq<SpecPatternItem>, r: &Record, td: TimeDate) -> Seq<
    char,
>
    decreases ts.len(),
{
    if ts.len() == 0 {
        Seq::empty()
    } else {
        spec_render_items(ts.drop_last(), r, td) + spec_render_item(ts.last(), r, td)
    }
}

/// Rendering one more item appends that item's text.
pub proof fn lemma_render_items_push(
    ts: Seq<SpecPatternItem>,
    t: SpecPatternItem,
    r: &Record,
    td: TimeDate,
)
    ensures
        spec_render_items(ts.push(t), r, td) == spec_render_items(ts, r, td) + spec_render_item(
            t,
            r,
            td,
        ),
{
    assert(ts.push(t).drop_last() =~= ts);
    assert(ts.push(t).last() == t);
}

/// Renders one field into `dest`. Fields that read the instant take it from
/// the decomposition `td`; the rest read the record alone.
pub fn render_field(k: FieldKind, record: &Record, td: &TimeDate, dest: &mut StringBuf)
    requires
        td.wf(),
    ensures
        final(dest)@ == old(dest)@ + spec_render_field(k, record, *td),
{
    match k {
        FieldKind::AbbrWeekdayName => {
            dest.append(td.weekday_name_short());
        },
        FieldKind::WeekdayName => {
            dest.append(td.weekday_name_full());
        },
        FieldKind::AbbrMonthName => {
            dest.append(td.month_name_short());
        },
        FieldKind::MonthName => {
            dest.append(td.month_name_full());
        },
        FieldKind::FullDateTime => {
            render_full_datetime(record, td, dest);
        },
        FieldKind::ShortYear => {
            push_dec_pad(dest, (td.year % 100) as u64, 2);
        },
        FieldKind::Year => {
            push_dec_pad(dest, td.year as u64, 4);
        },
        FieldKind::Date => {
            render_date(record, td, dest);
        },
        FieldKind::ShortDate => {
            render_short_date(record, td, dest);
        },
        FieldKind::Month => {
            push_dec_pad(dest, td.month as u64, 2);
        },
        FieldKind::Day => {
            push_dec_pad(dest, td.day as u64, 2);
        },
        FieldKind::Hour => {
            push_dec_pad(dest, td.hour as u64, 2);
        },
        FieldKind::Hour12 => {
            push_dec_pad(dest, td.hour12() as u64, 2);
        },
        FieldKind::Minute => {
            push_dec_pad(dest, td.minute as u64, 2);
        },
        FieldKind::Second => {
            push_dec_pad(dest, td.second as u64, 2);
        },
        FieldKind::Millisecond => {
            push_dec_pad(dest, (td.nanosecond() / 1_000_000) as u64, 3);
        },
        FieldKind::Microsecond => {
            push_dec_pad(dest, (td.nanosecond() / 1_000) as u64, 6);
        },
        FieldKind::Nanosecond => {
            push_dec_pad(dest, td.nanosecond() as u64, 9);
        },
        FieldKind::AmPm => {
            dest.append(td.am_pm_str());
        },
        FieldKind::Time12 => {
            render_time12(record, td, dest);
        },
        FieldKind::ShortTime => {
            render_short_time(record, td, dest);
        },
        FieldKind::Time => {
            render_time(record, td, dest);
        },
        FieldKind::TzOffset => {
            let t = td.tz_offset_str();
            dest.append(t.as_str());
        },
        FieldKind::UnixTimestamp => {
            push_dec_i64(dest, td.unix_timestamp);
        },
        FieldKind::Eol => {
            proof {
                crate::lemma_eol();
            }
            dest.append(crate::EOL);
        },
        FieldKind::Level => {
            dest.append(record.level().as_str());
        },
        FieldKind::ShortLevel => {
            dest.append(record.level().as_short_str());
        },
        FieldKind::LoggerName => {
            if let Some(name) = record.logger_name() {
                dest.append(name);
            }
        },
        FieldKind::Payload => {
            dest.append(record.payload());
        },
        FieldKind::Source => {
            if let Some(loc) = record.source_location() {
                dest.append(loc.file());
                push_char(dest, ':');
                push_dec_u64(dest, loc.line() as u64);
                proof {
                    assert(dest@ =~= old(dest)@ + spec_render_field(k, record, *td));
                }
            }
        },
        FieldKind::SourceFilename => {
            if let Some(loc) = record.source_location() {
                dest.append(loc.file_name());
            }
        },
        FieldKind::SourceFile => {
            if let Some(loc) = record.source_location() {
                dest.append(loc.file());
            }
        },
        FieldKind::SourceLine => {
            if let Some(loc) = record.source_location() {
                push_dec_u64(dest, loc.line() as u64);
            }
        },
        FieldKind::SourceColumn => {
            if let Some(loc) = record.source_location() {
                push_dec_u64(dest, loc.column() as u64);
            }
        },
        FieldKind::SourceModulePath => {
            if let Some(loc) = record.source_location() {
                dest.append(loc.module());
            }
        },
        FieldKind::Tid => {
            push_dec_u64(dest, record.tid());
        },
    }
}

/// Renders `Thu Aug 23 15:35:46 2014`.
fn render_full_datetime(record: &Record, td: &TimeDate, dest: &mut StringBuf)
    requires
        td.wf(),
    ensures
        final(dest)@ == old(dest)@ + spec_render_field(FieldKind::FullDateTime, record, *td),
{
    dest.append(td.weekday_name_short());
    push_char(dest, ' ');
    dest.append(td.month_name_short());
    push_char(dest, ' ');
    push_dec_pad(dest, td.day as u64, 2);
    push_char(dest, ' ');
    push_dec_pad(dest, td.hour as u64, 2);
    push_char(dest, ':');
    push_dec_pad(dest, td.minute as u64, 2);
    push_char(dest, ':');
    push_dec_pad(dest, td.second as u64, 2);
    push_char(dest, ' ');
    push_dec_pad(dest, td.year as u64, 4);
    proof {
        assert(dest@ =~= old(dest)@ + spec_render_field(FieldKind::FullDateTime, record, *td));
    }
}

/// Renders `2022-04-01`.
fn render_date(record: &Record, td: &TimeDate, dest: &mut StringBuf)
    requires
        td.wf(),
    ensures
        final(dest)@ == old(dest)@ + spec_render_field(FieldKind::Date, record, *td),
{
    push_dec_pad(dest, td.year as u64, 4);
    push_char(dest, '-');
    push_dec_pad(dest, td.month as u64, 2);
    push_char(dest, '-');
    push_dec_pad(dest, td.day as u64, 2);
    proof {
        assert(dest@ =~= old(dest)@ + spec_render_field(FieldKind::Date, record, *td));
    }
}

/// Renders `04/01/22`.
fn render_short_date(record: &Record, td: &TimeDate, dest: &mut StringBuf)
    requires
        td.wf(),
    ensures
        final(dest)@ == old(dest)@ + spec_render_field(FieldKind::ShortDate, record, *td),
{
    push_dec_pad(dest, td.month as u64, 2);
    push_char(dest, '/');
    push_dec_pad(dest, td.day as u64, 2);
    push_char(dest, '/');
    push_dec_pad(dest, (td.year % 100) as u64, 2);
    proof {
        assert(dest@ =~= old(dest)@ + spec_render_field(FieldKind::ShortDate, record, *td));
    }
}

/// Renders `02:55:02 PM`.
fn render_time12(record: &Record, td: &TimeDate, dest: &mut StringBuf)
    requires
        td.wf(),
    ensures
        final(dest)@ == old(dest)@ + spec_render_field(FieldKind::Time12, record, *td),
{
    push_dec_pad(dest, td.hour12() as u64, 2);
    push_char(dest, ':');
    push_dec_pad(dest, td.minute as u64, 2);
    push_char(dest, ':');
    push_dec_pad(dest, td.second as u64, 2);
    push_char(dest, ' ');
    dest.append(td.am_pm_str());
    proof {
        assert(dest@ =~= old(dest)@ + spec_render_field(FieldKind::Time12, record, *td));
    }
}

/// Renders `22:28`.
fn render_short_time(record: &Record, td: &TimeDate, dest: &mut StringBuf)
    requires
        td.wf(),
    ensures
        final(dest)@ == old(dest)@ + spec_render_field(FieldKind::ShortTime, record, *td),
{
    push_dec_pad(dest, td.hour as u64, 2);
    push_char(dest, ':');
    push_dec_pad(dest, td.minute as u64, 2);
    proof {
        assert(dest@ =~= old(dest)@ + spec_render_field(FieldKind::ShortTime, record, *td));
    }
}

/// Per-call mutable side state threaded through item execution: the style
/// range discovered while executing a styled span, as character positions
/// in the output buffer.
#[derive(Clone, Copy, PartialEq, Eq, Debug)]
pub struct PatternContext {
    pub style_range: Option<(usize, usize)>,
}

impl PatternContext {
    /// A fresh context with no style range yet.
    pub fn new() -> (r: PatternContext)
        ensures
            r.style_range is None,
    {
        PatternContext { style_range: None }
    }
}

/// A single field-rendering unit: the capability the pattern items share.
///
/// The contract every item carries: a successful call appends exactly
/// `spec_rendered` of the record and the decomposition of its instant and
/// leaves the context untouched; a failed call changes nothing. An item that
/// does not read the record's instant leaves the time cache unchanged and
/// cannot fail; one that does fails only when the instant has no
/// local-calendar representation, and never when the cache already holds the
/// record's second.
pub trait Pattern: Sized {
    /// Whether `format` reads the record's instant (and so the time cache).
    spec fn uses_time(&self) -> bool;

    /// The exact text this item appends for `record`, given the
    /// decomposition `td` of the record's instant. Independent of `td`
    /// whenever `uses_time()` is false.
    spec fn spec_rendered(&self, record: &Record, td: TimeDate) -> Seq<char>;

    /// Appends this item's text for `record` to `dest`.
    fn format(
        &self,
        record: &Record,
        dest: &mut StringBuf,
        ctx: &mut PatternContext,
        cacher: &mut LocalTimeCacher,
    ) -> (r: Result<(), FormatError>)
        requires
            old(cacher).wf(),
            record.time.wf(),
        ensures
            final(cacher).wf(),
            *final(ctx) == *old(ctx),
            !self.uses_time() ==> *final(cacher) == *old(cacher) && r is Ok,
            old(cacher).has_second(record.time.secs) ==> *final(cacher) == *old(cacher) && r
                is Ok,
            r is Ok ==> (self.uses_time() ==> final(cacher).has_second(record.time.secs))
                && final(dest)@ == old(dest)@ + self.spec_rendered(
                record,
                cache_td(*final(cacher), record.time),
            ),
            r matches Err(e) ==> final(dest)@ == old(dest)@ && *final(cacher) == *old(cacher)
                && e == FormatError::TimeOutOfRange,
    ;
}

/// Renders `22:28:02`.
fn render_time(record: &Record, td: &TimeDate, dest: &mut StringBuf)
    requires
        td.wf(),
    ensures
        final(dest)@ == old(dest)@ + spec_render_field(FieldKind::Time, record, *td),
{
    push_dec_pad(dest, td.hour as u64, 2);
    push_char(dest, ':');
    push_dec_pad(dest, td.minute as u64, 2);
    push_char(dest, ':');
    push_dec_pad(dest, td.second as u64, 2);
    proof {
        assert(dest@ =~= old(dest)@ + spec_render_field(FieldKind::Time, record, *td));
    }
}

/// The rendered length of the first `k` items, with `k` clamped to the item
/// count.
pub open spec fn spec_render_prefix_len(
    ts: Seq<SpecPatternItem>,
    k: int,
    r: &Record,
    td: TimeDate,
) -> int {
    let kk = if k > ts.len() {
        ts.len() as int
    } else {
        k
    };
    spec_render_items(ts.take(kk), r, td).len() as int
}

/// The style range a compiled pattern reports: the output positions at which
/// the styled item range's rendering begins and ends, in a buffer holding
/// `base` characters before the call.
pub open spec fn spec_style_items(
    ts: Seq<SpecPatternItem>,
    span: Option<(usize, usize)>,
    r: &Record,
    td: TimeDate,
    base: int,
) -> Option<(int, int)> {
    match span {
        Some((a, b)) => Some(
            (
                base + spec_render_prefix_len(ts, a as int, r, td),
                base + spec_render_prefix_len(ts, b as int, r, td),
            ),
        ),
        None => None,
    }
}

/// An item duplicated: an independent value with the same content.
fn duplicate_item(t: &PatternItem) -> (r: PatternItem)
    ensures
        r == *t,
{
    match t {
        PatternItem::Literal(l) => PatternItem::Literal(l.clone()),
        PatternItem::Field(k) => PatternItem::Field(*k),
    }
}

/// A template compiled once into an ordered executable item sequence, plus
/// the item range a `{^...}` span marked for styling. Immutable after
/// construction and freely duplicated.
#[derive(Debug)]
pub struct CompiledPattern {
    pub items: Vec<PatternItem>,
    pub style_span: Option<(usize, usize)>,
}

impl CompiledPattern {
    /// The items' mathematical values.
    pub open spec fn spec_items(&self) -> Seq<SpecPatternItem> {
        self.items.deep_view()
    }

    /// Compiles `template`: exactly the parse of its characters from the
    /// start. A malformed template or an unrecognized field name is refused
    /// here, naming the bad token and its position, before any record is
    /// formatted.
    pub fn compile(template: &str) -> (r: Result<CompiledPattern, TemplateError>)
        ensures
            match r {
                Ok(p) => spec_parse(template@, 0, None, false) matches Ok(q) && q.0
                    == p.spec_items() && q.1 == spec_opt_span(p.style_span),
                Err(e) => spec_parse(template@, 0, None, false) matches Err(se) && se == e@,
            },
    {
        match parse::parse_at(template, 0, None, false) {
            Ok((items, style_span)) => Ok(CompiledPattern { items, style_span }),
            Err(e) => Err(e),
        }
    }

    /// Walks the items once, in order, appending each item's text to `dest`;
    /// items are never skipped or reordered. When a styled span was
    /// compiled, its begin and end output positions are recorded in `ctx`.
    pub fn render_to(
        &self,
        record: &Record,
        td: &TimeDate,
        dest: &mut StringBuf,
        ctx: &mut PatternContext,
    )
        requires
            td.wf(),
        ensures
            final(dest)@ == old(dest)@ + spec_render_items(self.spec_items(), record, *td),
            match self.style_span {
                Some(_) => range_matches(
                    final(ctx).style_range,
                    spec_style_items(
                        self.spec_items(),
                        self.style_span,
                        record,
                        *td,
                        old(dest)@.len() as int,
                    ),
                ),
                None => *final(ctx) == *old(ctx),
            },
    {
        let n = self.items.len();
        let mut i: usize = 0;
        let mut begin_pos: usize = 0;
        let mut end_pos: usize = 0;
        while i < n
            invariant
                i <= n,
                n == self.items@.len(),
                td.wf(),
                dest@ == old(dest)@ + spec_render_items(
                    self.spec_items().take(i as int),
                    record,
                    *td,
                ),
                *ctx == *old(ctx),
                match self.style_span {
                    Some((a, b)) => (i > a ==> begin_pos as int == old(dest)@.len()
                        + spec_render_prefix_len(self.spec_items(), a as int, record, *td)) && (i
                        > b ==> end_pos as int == old(dest)@.len() + spec_render_prefix_len(
                        self.spec_items(),
                        b as int,
                        record,
                        *td,
                    )),
                    None => true,
                },
            decreases n - i,
        {
            if let Some((a, b)) = self.style_span {
                if i == a {
                    begin_pos = dest.as_str().unicode_len();
                }
                if i == b {
                    end_pos = dest.as_str().unicode_len();
                }
            }
            match &self.items[i] {
                PatternItem::Literal(l) => {
                    dest.append(l.as_str());
                },
                PatternItem::Field(k) => {
                    render_field(*k, record, td, dest);
                },
            }
            proof {
                assert(self.spec_items().take(i as int + 1) =~= self.spec_items().take(
                    i as int,
                ).push(self.spec_items()[i as int]));
                lemma_render_items_push(
                    self.spec_items().take(i as int),
                    self.spec_items()[i as int],
                    record,
                    *td,
                );
            }
            i = i + 1;
        }
        proof {
            assert(self.spec_items().take(n as int) =~= self.spec_items());
        }
        if let Some((a, b)) = self.style_span {
            if a >= n {
                begin_pos = dest.as_str().unicode_len();
            }
            if b >= n {
                end_pos = dest.as_str().unicode_len();
            }
            ctx.style_range = Some((begin_pos, end_pos));
        }
    }

    /// An independent copy with the same items and the same styled range.
    pub fn duplicate(&self) -> (r: CompiledPattern)
        ensures
            r.spec_items() == self.spec_items(),
            r.style_span == self.style_span,
    {
        let n = self.items.len();
        let mut items: Vec<PatternItem> = Vec::new();
        let mut i: usize = 0;
        while i < n
            invariant
                i <= n,
                n == self.items@.len(),
                items@.len() == i,
                forall|j: int| 0 <= j < i ==> items@[j] == self.items@[j],
            decreases n - i,
        {
            let it = duplicate_item(&self.items[i]);
            items.push(it);
            i = i + 1;
        }
        proof {
            assert(items.deep_view() =~= self.items.deep_view());
        }
        CompiledPattern { items, style_span: self.style_span }
    }
}

/// A formatter that runs a compiled pattern: the template is parsed once at
/// construction, and each call executes the compiled items in order.
#[derive(Debug)]
pub struct PatternFormatter {
    pub compiled: CompiledPattern,
}

impl PatternFormatter {
    /// Compiles `template` into a pattern formatter. A template error
    /// surfaces here, at setup time.
    pub fn new(template: &str) -> (r: Result<PatternFormatter, TemplateError>)
        ensures
            match r {
                Ok(f) => spec_parse(template@, 0, None, false) matches Ok(q) && q.0
                    == f.compiled.spec_items() && q.1 == spec_opt_span(f.compiled.style_span),
                Err(e) => spec_parse(template@, 0, None, false) matches Err(se) && se == e@,
            },
    {
        match CompiledPattern::compile(template) {
            Ok(c) => Ok(PatternFormatter { compiled: c }),
            Err(e) => Err(e),
        }
    }
}

impl Formatter for PatternFormatter {
    open spec fn uses_time(&self) -> bool {
        true
    }

    open spec fn spec_rendered(&self, record: &Record, td: TimeDate) -> Seq<char> {
        spec_render_items(self.compiled.spec_items(), record, td)
    }

    open spec fn spec_style(&self, record: &Record, td: TimeDate, base: int) -> Option<
        (int, int),
    > {
        spec_style_items(self.compiled.spec_items(), self.compiled.style_span, record, td, base)
    }

    fn format(&self, record: &Record, dest: &mut StringBuf, cacher: &mut LocalTimeCacher) -> (r:
        Result<FmtExtraInfo, FormatError>) {
        let td = match cacher.get(record.time()) {
            Ok(td) => td,
            Err(e) => {
                return Err(e);
            },
        };
        let mut ctx = PatternContext::new();
        self.compiled.render_to(record, &td, dest, &mut ctx);
        Ok(FmtExtraInfo { style_range: ctx.style_range })
    }

    fn duplicate(&self) -> (r: Self) {
        PatternFormatter { compiled: self.compiled.duplicate() }
    }
}

} // verus!
