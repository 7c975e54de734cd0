//! Pattern items that render the date and time of a record, each reading
//! the shared local-time cache.

use vstd::prelude::*;
use crate::StringBuf;
use crate::error::FormatError;
use crate::local_time_cacher::{LocalTimeCacher, TimeDate};
use crate::pattern_formatter::{render_field, FieldKind, Pattern, PatternContext};
use crate::record::Record;

verus! {

/// A pattern that writes the abbreviated weekday name of log records into the
/// output. Example: `Mon`, `Tue`.
#[derive(Clone, Copy, Default, PartialEq, Eq, Structural, Debug)]
pub struct AbbrWeekdayName {}

impl Pattern for AbbrWeekdayName {
    open spec fn uses_time(&self) -> bool {
        true
    }

    open spec fn spec_rendered(&self, record: &Record, td: TimeDate) -> Seq<char> {
        crate::pattern_formatter::spec_render_field(FieldKind::AbbrWeekdayName, record, td)
    }

    fn format(
        &self,
        record: &Record,
        dest: &mut StringBuf,
        ctx: &mut PatternContext,
        cacher: &mut LocalTimeCacher,
    ) -> (r: Result<(), FormatError>) {
        let td = match cacher.get(record.time()) {
            Ok(td) => td,
            Err(e) => {
                return Err(e);
            },
        };
        render_field(FieldKind::AbbrWeekdayName, record, &td, dest);
        Ok(())
    }
}

/// A pattern that writes the weekday name of log records into the
/// output. Example: `Monday`, `Tuesday`.
#[derive(Clone, Copy, Default, PartialEq, Eq, Structural, Debug)]
pub struct WeekdayName {}

impl Pattern for WeekdayName {
    open spec fn uses_time(&self) -> bool {
        true
    }

    open spec fn spec_rendered(&self, record: &Record, td: TimeDate) -> Seq<char> {
        crate::pattern_formatter::spec_render_field(FieldKind::WeekdayName, record, td)
    }

    fn format(
        &self,
        record: &Record,
        dest: &mut StringBuf,
        ctx: &mut PatternContext,
        cacher: &mut LocalTimeCacher,
    ) -> (r: Result<(), FormatError>) {
        let td = match cacher.get(record.time()) {
            Ok(td) => td,
            Err(e) => {
                return Err(e);
            },
        };
        render_field(FieldKind::WeekdayName, record, &td, dest);
        Ok(())
    }
}

/// A pattern that writes the abbreviated month name of log records into the
/// output. Example: `Jan`, `Feb`.
#[derive(Clone, Copy, Default, PartialEq, Eq, Structural, Debug)]
pub struct AbbrMonthName {}

impl Pattern for AbbrMonthName {
    open spec fn uses_time(&self) -> bool {
        true
    }

    open spec fn spec_rendered(&self, record: &Record, td: TimeDate) -> Seq<char> {
        crate::pattern_formatter::spec_render_field(FieldKind::AbbrMonthName, record, td)
    }

    fn format(
        &self,
        record: &Record,
        dest: &mut StringBuf,
        ctx: &mut PatternContext,
        cacher: &mut LocalTimeCacher,
    ) -> (r: Result<(), FormatError>) {
        let td = match cacher.get(record.time()) {
            Ok(td) => td,
            Err(e) => {
                return Err(e);
            },
        };
        render_field(FieldKind::AbbrMonthName, record, &td, dest);
        Ok(())
    }
}

/// A pattern that writes the month name of log records into the
/// output. Example: `January`, `February`.
#[derive(Clone, Copy, Default, PartialEq, Eq, Structural, Debug)]
pub struct MonthName {}

impl Pattern for MonthName {
    open spec fn uses_time(&self) -> bool {
        true
    }

    open spec fn spec_rendered(&self, record: &Record, td: TimeDate) -> Seq<char> {
        crate::pattern_formatter::spec_render_field(FieldKind::MonthName, record, td)
    }

    fn format(
        &self,
        record: &Record,
        dest: &mut StringBuf,
        ctx: &mut PatternContext,
        cacher: &mut LocalTimeCacher,
    ) -> (r: Result<(), FormatError>) {
        let td = match cacher.get(record.time()) {
            Ok(td) => td,
            Err(e) => {
                return Err(e);
            },
        };
        render_field(FieldKind::MonthName, record, &td, dest);
        Ok(())
    }
}

/// A pattern that writes the full date time of log records into the
/// output. Example: `Thu Aug 23 15:35:46 2014`.
#[derive(Clone, Copy, Default, PartialEq, Eq, Structural, Debug)]
pub struct FullDateTime {}

impl Pattern for FullDateTime {
    open spec fn uses_time(&self) -> bool {
        true
    }

    open spec fn spec_rendered(&self, record: &Record, td: TimeDate) -> Seq<char> {
        crate::pattern_formatter::spec_render_field(FieldKind::FullDateTime, record, td)
    }

    fn format(
        &self,
        record: &Record,
        dest: &mut StringBuf,
        ctx: &mut PatternContext,
        cacher: &mut LocalTimeCacher,
    ) -> (r: Result<(), FormatError>) {
        let td = match cacher.get(record.time()) {
            Ok(td) => td,
            Err(e) => {
                return Err(e);
            },
        };
        render_field(FieldKind::FullDateTime, record, &td, dest);
        Ok(())
    }
}

/// A pattern that writes the short year of log records into the
/// output. Example: `22`, `20`.
#[derive(Clone, Copy, Default, PartialEq, Eq, Structural, Debug)]
pub struct ShortYear {}

impl Pattern for ShortYear {
    open spec fn uses_time(&self) -> bool {
        true
    }

    open spec fn spec_rendered(&self, record: &Record, td: TimeDate) -> Seq<char> {
        crate::pattern_formatter::spec_render_field(FieldKind::ShortYear, record, td)
    }

    fn format(
        &self,
        record: &Record,
        dest: &mut StringBuf,
        ctx: &mut PatternContext,
        cacher: &mut LocalTimeCacher,
    ) -> (r: Result<(), FormatError>) {
        let td = match cacher.get(record.time()) {
            Ok(td) => td,
            Err(e) => {
                return Err(e);
            },
        };
        render_field(FieldKind::ShortYear, record, &td, dest);
        Ok(())
    }
}

/// A pattern that writes the year of log records into the
/// output. Example: `2022`, `2021`.
#[derive(Clone, Copy, Default, PartialEq, Eq, Structural, Debug)]
pub struct Year {}

impl Pattern for Year {
    open spec fn uses_time(&self) -> bool {
        true
    }

    open spec fn spec_rendered(&self, record: &Record, td: TimeDate) -> Seq<char> {
        crate::pattern_formatter::spec_render_field(FieldKind::Year, record, td)
    }

    fn format(
        &self,
        record: &Record,
        dest: &mut StringBuf,
        ctx: &mut PatternContext,
        cacher: &mut LocalTimeCacher,
    ) -> (r: Result<(), FormatError>) {
        let td = match cacher.get(record.time()) {
            Ok(td) => td,
            Err(e) => {
                return Err(e);
            },
        };
        render_field(FieldKind::Year, record, &td, dest);
        Ok(())
    }
}

/// A pattern that writes the date in `YYYY-MM-DD` format (ISO 8601) of log records into the
/// output. Example: `2022-04-01`.
#[derive(Clone, Copy, Default, PartialEq, Eq, Structural, Debug)]
pub struct Date {}

impl Pattern for Date {
    open spec fn uses_time(&self) -> bool {
        true
    }

    open spec fn spec_rendered(&self, record: &Record, td: TimeDate) -> Seq<char> {
        crate::pattern_formatter::spec_render_field(FieldKind::Date, record, td)
    }

    fn format(
        &self,
        record: &Record,
        dest: &mut StringBuf,
        ctx: &mut PatternContext,
        cacher: &mut LocalTimeCacher,
    ) -> (r: Result<(), FormatError>) {
        let td = match cacher.get(record.time()) {
            Ok(td) => td,
            Err(e) => {
                return Err(e);
            },
        };
        render_field(FieldKind::Date, record, &td, dest);
        Ok(())
    }
}

/// A pattern that writes the short date in `MM/DD/YY` format of log records into the
/// output. Example: `04/01/22`.
#[derive(Clone, Copy, Default, PartialEq, Eq, Structural, Debug)]
pub struct ShortDate {}

impl Pattern for ShortDate {
    open spec fn uses_time(&self) -> bool {
        true
    }

    open spec fn spec_rendered(&self, record: &Record, td: TimeDate) -> Seq<char> {
        crate::pattern_formatter::spec_render_field(FieldKind::ShortDate, record, td)
    }

    fn format(
        &self,
        record: &Record,
        dest: &mut StringBuf,
        ctx: &mut PatternContext,
        cacher: &mut LocalTimeCacher,
    ) -> (r: Result<(), FormatError>) {
        let td = match cacher.get(record.time()) {
            Ok(td) => td,
            Err(e) => {
                return Err(e);
            },
        };
        render_field(FieldKind::ShortDate, record, &td, dest);
        Ok(())
    }
}

/// A pattern that writes the month of log records into the
/// output. Example: `01`, `12`.
#[derive(Clone, Copy, Default, PartialEq, Eq, Structural, Debug)]
pub struct Month {}

impl Pattern for Month {
    open spec fn uses_time(&self) -> bool {
        true
    }

    open spec fn spec_rendered(&self, record: &Record, td: TimeDate) -> Seq<char> {
        crate::pattern_formatter::spec_render_field(FieldKind::Month, record, td)
    }

    fn format(
        &self,
        record: &Record,
        dest: &mut StringBuf,
        ctx: &mut PatternContext,
        cacher: &mut LocalTimeCacher,
    ) -> (r: Result<(), FormatError>) {
        let td = match cacher.get(record.time()) {
            Ok(td) => td,
            Err(e) => {
                return Err(e);
            },
        };
        render_field(FieldKind::Month, record, &td, dest);
        Ok(())
    }
}

/// A pattern that writes the day of month of log records into the
/// output. Example: `01`, `12`, `31`.
#[derive(Clone, Copy, Default, PartialEq, Eq, Structural, Debug)]
pub struct Day {}

impl Pattern for Day {
    open spec fn uses_time(&self) -> bool {
        true
    }

    open spec fn spec_rendered(&self, record: &Record, td: TimeDate) -> Seq<char> {
        crate::pattern_formatter::spec_render_field(FieldKind::Day, record, td)
    }

    fn format(
        &self,
        record: &Record,
        dest: &mut StringBuf,
        ctx: &mut PatternContext,
        cacher: &mut LocalTimeCacher,
    ) -> (r: Result<(), FormatError>) {
        let td = match cacher.get(record.time()) {
            Ok(td) => td,
            Err(e) => {
                return Err(e);
            },
        };
        render_field(FieldKind::Day, record, &td, dest);
        Ok(())
    }
}

/// A pattern that writes the hour of log records into the
/// output. Example: `01`, `12`, `23`.
#[derive(Clone, Copy, Default, PartialEq, Eq, Structural, Debug)]
pub struct Hour {}

impl Pattern for Hour {
    open spec fn uses_time(&self) -> bool {
        true
    }

    open spec fn spec_rendered(&self, record: &Record, td: TimeDate) -> Seq<char> {
        crate::pattern_formatter::spec_render_field(FieldKind::Hour, record, td)
    }

    fn format(
        &self,
        record: &Record,
        dest: &mut StringBuf,
        ctx: &mut PatternContext,
        cacher: &mut LocalTimeCacher,
    ) -> (r: Result<(), FormatError>) {
        let td = match cacher.get(record.time()) {
            Ok(td) => td,
            Err(e) => {
                return Err(e);
            },
        };
        render_field(FieldKind::Hour, record, &td, dest);
        Ok(())
    }
}

/// A pattern that writes the hour in 12-hour format of log records into the
/// output. Example: `01`, `12`.
#[derive(Clone, Copy, Default, PartialEq, Eq, Structural, Debug)]
pub struct Hour12 {}

impl Pattern for Hour12 {
    open spec fn uses_time(&self) -> bool {
        true
    }

    open spec fn spec_rendered(&self, record: &Record, td: TimeDate) -> Seq<char> {
        crate::pattern_formatter::spec_render_field(FieldKind::Hour12, record, td)
    }

    fn format(
        &self,
        record: &Record,
        dest: &mut StringBuf,
        ctx: &mut PatternContext,
        cacher: &mut LocalTimeCacher,
    ) -> (r: Result<(), FormatError>) {
        let td = match cacher.get(record.time()) {
            Ok(td) => td,
            Err(e) => {
                return Err(e);
            },
        };
        render_field(FieldKind::Hour12, record, &td, dest);
        Ok(())
    }
}

/// A pattern that writes the minute of log records into the
/// output. Example: `00`, `05`, `59`.
#[derive(Clone, Copy, Default, PartialEq, Eq, Structural, Debug)]
pub struct Minute {}

impl Pattern for Minute {
    open spec fn uses_time(&self) -> bool {
        true
    }

    open spec fn spec_rendered(&self, record: &Record, td: TimeDate) -> Seq<char> {
        crate::pattern_formatter::spec_render_field(FieldKind::Minute, record, td)
    }

    fn format(
        &self,
        record: &Record,
        dest: &mut StringBuf,
        ctx: &mut PatternContext,
        cacher: &mut LocalTimeCacher,
    ) -> (r: Result<(), FormatError>) {
        let td = match cacher.get(record.time()) {
            Ok(td) => td,
            Err(e) => {
                return Err(e);
            },
        };
        render_field(FieldKind::Minute, record, &td, dest);
        Ok(())
    }
}

/// A pattern that writes the second of log records into the
/// output. Example: `00`, `05`, `59`.
#[derive(Clone, Copy, Default, PartialEq, Eq, Structural, Debug)]
pub struct Second {}

impl Pattern for Second {
    open spec fn uses_time(&self) -> bool {
        true
    }

    open spec fn spec_rendered(&self, record: &Record, td: TimeDate) -> Seq<char> {
        crate::pattern_formatter::spec_render_field(FieldKind::Second, record, td)
    }

    fn format(
        &self,
        record: &Record,
        dest: &mut StringBuf,
        ctx: &mut PatternContext,
        cacher: &mut LocalTimeCacher,
    ) -> (r: Result<(), FormatError>) {
        let td = match cacher.get(record.time()) {
            Ok(td) => td,
            Err(e) => {
                return Err(e);
            },
        };
        render_field(FieldKind::Second, record, &td, dest);
        Ok(())
    }
}

/// A pattern that writes the millisecond part within a second of log records into the
/// output. Example: `231`.
#[derive(Clone, Copy, Default, PartialEq, Eq, Structural, Debug)]
pub struct Millisecond {}

impl Pattern for Millisecond {
    open spec fn uses_time(&self) -> bool {
        true
    }

    open spec fn spec_rendered(&self, record: &Record, td: TimeDate) -> Seq<char> {
        crate::pattern_formatter::spec_render_field(FieldKind::Millisecond, record, td)
    }

    fn format(
        &self,
        record: &Record,
        dest: &mut StringBuf,
        ctx: &mut PatternContext,
        cacher: &mut LocalTimeCacher,
    ) -> (r: Result<(), FormatError>) {
        let td = match cacher.get(record.time()) {
            Ok(td) => td,
            Err(e) => {
                return Err(e);
            },
        };
        render_field(FieldKind::Millisecond, record, &td, dest);
        Ok(())
    }
}

/// A pattern that writes the microsecond part within a second of log records into the
/// output. Example: `372152`.
#[derive(Clone, Copy, Default, PartialEq, Eq, Structural, Debug)]
pub struct Microsecond {}

impl Pattern for Microsecond {
    open spec fn uses_time(&self) -> bool {
        true
    }

    open spec fn spec_rendered(&self, record: &Record, td: TimeDate) -> Seq<char> {
        crate::pattern_formatter::spec_render_field(FieldKind::Microsecond, record, td)
    }

    fn format(
        &self,
        record: &Record,
        dest: &mut StringBuf,
        ctx: &mut PatternContext,
        cacher: &mut LocalTimeCacher,
    ) -> (r: Result<(), FormatError>) {
        let td = match cacher.get(record.time()) {
            Ok(td) => td,
            Err(e) => {
                return Err(e);
            },
        };
        render_field(FieldKind::Microsecond, record, &td, dest);
        Ok(())
    }
}

/// A pattern that writes the nanosecond part within a second of log records into the
/// output. Example: `482930154`.
#[derive(Clone, Copy, Default, PartialEq, Eq, Structural, Debug)]
pub struct Nanosecond {}

impl Pattern for Nanosecond {
    open spec fn uses_time(&self) -> bool {
        true
    }

    open spec fn spec_rendered(&self, record: &Record, td: TimeDate) -> Seq<char> {
        crate::pattern_formatter::spec_render_field(FieldKind::Nanosecond, record, td)
    }

    fn format(
        &self,
        record: &Record,
        dest: &mut StringBuf,
        ctx: &mut PatternContext,
        cacher: &mut LocalTimeCacher,
    ) -> (r: Result<(), FormatError>) {
        let td = match cacher.get(record.time()) {
            Ok(td) => td,
            Err(e) => {
                return Err(e);
            },
        };
        render_field(FieldKind::Nanosecond, record, &td, dest);
        Ok(())
    }
}

/// A pattern that writes `AM` or `PM` of log records into the
/// output. Example: `AM`, `PM`.
#[derive(Clone, Copy, Default, PartialEq, Eq, Structural, Debug)]
pub struct AmPm {}

impl Pattern for AmPm {
    open spec fn uses_time(&self) -> bool {
        true
    }

    open spec fn spec_rendered(&self, record: &Record, td: TimeDate) -> Seq<char> {
        crate::pattern_formatter::spec_render_field(FieldKind::AmPm, record, td)
    }

    fn format(
        &self,
        record: &Record,
        dest: &mut StringBuf,
        ctx: &mut PatternContext,
        cacher: &mut LocalTimeCacher,
    ) -> (r: Result<(), FormatError>) {
        let td = match cacher.get(record.time()) {
            Ok(td) => td,
            Err(e) => {
                return Err(e);
            },
        };
        render_field(FieldKind::AmPm, record, &td, dest);
        Ok(())
    }
}

/// A pattern that writes the time in 12-hour format of log records into the
/// output. Example: `02:55:02 PM`.
#[derive(Clone, Copy, Default, PartialEq, Eq, Structural, Debug)]
pub struct Time12 {}

impl Pattern for Time12 {
    open spec fn uses_time(&self) -> bool {
        true
    }

    open spec fn spec_rendered(&self, record: &Record, td: TimeDate) -> Seq<char> {
        crate::pattern_formatter::spec_render_field(FieldKind::Time12, record, td)
    }

    fn format(
        &self,
        record: &Record,
        dest: &mut StringBuf,
        ctx: &mut PatternContext,
        cacher: &mut LocalTimeCacher,
    ) -> (r: Result<(), FormatError>) {
        let td = match cacher.get(record.time()) {
            Ok(td) => td,
            Err(e) => {
                return Err(e);
            },
        };
        render_field(FieldKind::Time12, record, &td, dest);
        Ok(())
    }
}

/// A pattern that writes the short time of log records into the
/// output. Example: `22:28`, `09:53`.
#[derive(Clone, Copy, Default, PartialEq, Eq, Structural, Debug)]
pub struct ShortTime {}

impl Pattern for ShortTime {
    open spec fn uses_time(&self) -> bool {
        true
    }

    open spec fn spec_rendered(&self, record: &Record, td: TimeDate) -> Seq<char> {
        crate::pattern_formatter::spec_render_field(FieldKind::ShortTime, record, td)
    }

    fn format(
        &self,
        record: &Record,
        dest: &mut StringBuf,
        ctx: &mut PatternContext,
        cacher: &mut LocalTimeCacher,
    ) -> (r: Result<(), FormatError>) {
        let td = match cacher.get(record.time()) {
            Ok(td) => td,
            Err(e) => {
                return Err(e);
            },
        };
        render_field(FieldKind::ShortTime, record, &td, dest);
        Ok(())
    }
}

/// A pattern that writes the time of log records into the
/// output. Example: `22:28:02`, `09:53:41`.
#[derive(Clone, Copy, Default, PartialEq, Eq, Structural, Debug)]
pub struct Time {}

impl Pattern for Time {
    open spec fn uses_time(&self) -> bool {
        true
    }

    open spec fn spec_rendered(&self, record: &Record, td: TimeDate) -> Seq<char> {
        crate::pattern_formatter::spec_render_field(FieldKind::Time, record, td)
    }

    fn format(
        &self,
        record: &Record,
        dest: &mut StringBuf,
        ctx: &mut PatternContext,
        cacher: &mut LocalTimeCacher,
    ) -> (r: Result<(), FormatError>) {
        let td = match cacher.get(record.time()) {
            Ok(td) => td,
            Err(e) => {
                return Err(e);
            },
        };
        render_field(FieldKind::Time, record, &td, dest);
        Ok(())
    }
}

/// A pattern that writes the timezone offset of log records into the
/// output. Example: `+08:00`, `-06:00`.
#[derive(Clone, Copy, Default, PartialEq, Eq, Structural, Debug)]
pub struct TzOffset {}

impl Pattern for TzOffset {
    open spec fn uses_time(&self) -> bool {
        true
    }

    open spec fn spec_rendered(&self, record: &Record, td: TimeDate) -> Seq<char> {
        crate::pattern_formatter::spec_render_field(FieldKind::TzOffset, record, td)
    }

    fn format(
        &self,
        record: &Record,
        dest: &mut StringBuf,
        ctx: &mut PatternContext,
        cacher: &mut LocalTimeCacher,
    ) -> (r: Result<(), FormatError>) {
        let td = match cacher.get(record.time()) {
            Ok(td) => td,
            Err(e) => {
                return Err(e);
            },
        };
        render_field(FieldKind::TzOffset, record, &td, dest);
        Ok(())
    }
}

/// A pattern that writes the unix timestamp of log records into the
/// output. Example: `1528834770`.
#[derive(Clone, Copy, Default, PartialEq, Eq, Structural, Debug)]
pub struct UnixTimestamp {}

impl Pattern for UnixTimestamp {
    open spec fn uses_time(&self) -> bool {
        true
    }

    open spec fn spec_rendered(&self, record: &Record, td: TimeDate) -> Seq<char> {
        crate::pattern_formatter::spec_render_field(FieldKind::UnixTimestamp, record, td)
    }

    fn format(
        &self,
        record: &Record,
        dest: &mut StringBuf,
        ctx: &mut PatternContext,
        cacher: &mut LocalTimeCacher,
    ) -> (r: Result<(), FormatError>) {
        let td = match cacher.get(record.time()) {
            Ok(td) => td,
            Err(e) => {
                return Err(e);
            },
        };
        render_field(FieldKind::UnixTimestamp, record, &td, dest);
        Ok(())
    }
}

} // verus!
