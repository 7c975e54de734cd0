//! A cache of local-calendar decompositions. Turning an instant into local
//! calendar fields is the dominant cost on the hot path, so the cache keeps
//! the decomposition of one represented second and recomputes it only when a
//! read lands in a different second — forward or backward. The subsecond part
//! is taken from the requested instant on every read, never cached.

use vstd::prelude::*;
use vstd::string::StringExecFns;
use crate::digits::{push_char, push_dec_i64, push_dec_pad, spec_dec_pad, spec_dec_signed};
use crate::error::FormatError;
use crate::record::Timestamp;

verus! {

/// The local calendar fields of one second, as plain values.
struct LocalParts {
    year: i32,
    month: u8,
    day: u8,
    weekday: u8,
    hour: u8,
    minute: u8,
    second: u8,
    tz_offset_secs: i32,
}

spec fn parts_wf(p: LocalParts) -> bool {
    &&& 1 <= p.month <= 12
    &&& 1 <= p.day <= 31
    &&& p.weekday < 7
    &&& p.hour < 24
    &&& p.minute < 60
    &&& p.second < 60
    &&& -86400 < p.tz_offset_secs < 86400
}

/// Relies on chrono: `Local.timestamp_opt(secs, 0)` maps an in-range instant
/// to the local calendar date and time (`None` only for an out-of-range
/// instant), and the `Datelike`/`Timelike`/`Weekday`/`FixedOffset` accessors
/// document their ranges: month 1..=12, day 1..=31, days from Sunday 0..=6,
/// hour 0..=23, minute and second 0..=59 (the nanosecond argument is 0, so no
/// leap second is represented), and an offset strictly between -86400 and
/// 86400 seconds.
#[verifier::external_body]
fn local_parts(secs: i64) -> (r: Option<LocalParts>)
    ensures
        r matches Some(p) ==> parts_wf(p),
{
    match chrono::TimeZone::timestamp_opt(&chrono::Local, secs, 0) {
        chrono::LocalResult::Single(dt) => Some(LocalParts {
            year: chrono::Datelike::year(&dt),
            month: chrono::Datelike::month(&dt) as u8,
            day: chrono::Datelike::day(&dt) as u8,
            weekday: chrono::Datelike::weekday(&dt).num_days_from_sunday() as u8,
            hour: chrono::Timelike::hour(&dt) as u8,
            minute: chrono::Timelike::minute(&dt) as u8,
            second: chrono::Timelike::second(&dt) as u8,
            tz_offset_secs: chrono::DateTime::offset(&dt).local_minus_utc(),
        }),
        _ => None,
    }
}

/// The abbreviated weekday name; days count from Sunday.
pub open spec fn spec_weekday_short(w: int) -> Seq<char> {
    if w == 0 {
        "Sun"@
    } else if w == 1 {
        "Mon"@
    } else if w == 2 {
        "Tue"@
    } else if w == 3 {
        "Wed"@
    } else if w == 4 {
        "Thu"@
    } else if w == 5 {
        "Fri"@
    } else {
        "Sat"@
    }
}

/// The full weekday name; days count from Sunday.
pub open spec fn spec_weekday_full(w: int) -> Seq<char> {
    if w == 0 {
        "Sunday"@
    } else if w == 1 {
        "Monday"@
    } else if w == 2 {
        "Tuesday"@
    } else if w == 3 {
        "Wednesday"@
    } else if w == 4 {
        "Thursday"@
    } else if w == 5 {
        "Friday"@
    } else {
        "Saturday"@
    }
}

/// The abbreviated month name; months count from 1.
pub open spec fn spec_month_short(m: int) -> Seq<char> {
    if m == 1 {
        "Jan"@
    } else if m == 2 {
        "Feb"@
    } else if m == 3 {
        "Mar"@
    } else if m == 4 {
        "Apr"@
    } else if m == 5 {
        "May"@
    } else if m == 6 {
        "Jun"@
    } else if m == 7 {
        "Jul"@
    } else if m == 8 {
        "Aug"@
    } else if m == 9 {
        "Sep"@
    } else if m == 10 {
        "Oct"@
    } else if m == 11 {
        "Nov"@
    } else {
        "Dec"@
    }
}

/// The full month name; months count from 1.
pub open spec fn spec_month_full(m: int) -> Seq<char> {
    if m == 1 {
        "January"@
    } else if m == 2 {
        "February"@
    } else if m == 3 {
        "March"@
    } else if m == 4 {
        "April"@
    } else if m == 5 {
        "May"@
    } else if m == 6 {
        "June"@
    } else if m == 7 {
        "July"@
    } else if m == 8 {
        "August"@
    } else if m == 9 {
        "September"@
    } else if m == 10 {
        "October"@
    } else if m == 11 {
        "November"@
    } else {
        "December"@
    }
}

/// The hour on a 12-hour clock: 0 becomes 12, 13..=23 drop by 12.
pub open spec fn spec_hour12(h: int) -> int {
    if h == 0 {
        12
    } else if h > 12 {
        h - 12
    } else {
        h
    }
}

/// `AM` before noon, `PM` from noon on.
pub open spec fn spec_am_pm(h: int) -> Seq<char> {
    if h < 12 {
        "AM"@
    } else {
        "PM"@
    }
}

/// The decomposition of one instant into local calendar fields, handed out
/// by the cache: the cached second's fields plus the instant's own subsecond
/// nanoseconds.
#[derive(Clone, Copy, PartialEq, Eq, Structural, Debug)]
pub struct TimeDate {
    pub year: u16,
    pub month: u8,
    pub day: u8,
    pub weekday: u8,
    pub hour: u8,
    pub minute: u8,
    pub second: u8,
    pub nanosecond: u32,
    pub tz_offset_secs: i32,
    pub unix_timestamp: i64,
}

/// `YYYY-MM-DD HH:MM:SS`.
pub open spec fn spec_full_second(td: TimeDate) -> Seq<char> {
    spec_dec_pad(td.year as nat, 4) + seq!['-'] + spec_dec_pad(td.month as nat, 2) + seq!['-']
        + spec_dec_pad(td.day as nat, 2) + seq![' '] + spec_dec_pad(td.hour as nat, 2) + seq![':']
        + spec_dec_pad(td.minute as nat, 2) + seq![':'] + spec_dec_pad(td.second as nat, 2)
}

/// The timezone offset as `+HH:MM` or `-HH:MM`.
pub open spec fn spec_tz_offset(off: int) -> Seq<char> {
    let sign = if off < 0 {
        seq!['-']
    } else {
        seq!['+']
    };
    let a = if off < 0 {
        -off
    } else {
        off
    };
    sign + spec_dec_pad((a / 3600) as nat, 2) + seq![':'] + spec_dec_pad(
        ((a % 3600) / 60) as nat,
        2,
    )
}

/// `YYYY-MM-DDTHH:MM:SS.NNNNNNNNN+HH:MM`: the RFC-3339 rendering with
/// nanosecond precision and the local offset.
pub open spec fn spec_iso_8601(td: TimeDate) -> Seq<char> {
    spec_dec_pad(td.year as nat, 4) + seq!['-'] + spec_dec_pad(td.month as nat, 2) + seq!['-']
        + spec_dec_pad(td.day as nat, 2) + seq!['T'] + spec_dec_pad(td.hour as nat, 2) + seq![':']
        + spec_dec_pad(td.minute as nat, 2) + seq![':'] + spec_dec_pad(td.second as nat, 2)
        + seq!['.'] + spec_dec_pad(td.nanosecond as nat, 9) + spec_tz_offset(
        td.tz_offset_secs as int,
    )
}

impl TimeDate {
    /// Every field lies in its calendar range.
    pub open spec fn wf(&self) -> bool {
        &&& self.year <= 9999
        &&& 1 <= self.month <= 12
        &&& 1 <= self.day <= 31
        &&& self.weekday < 7
        &&& self.hour < 24
        &&& self.minute < 60
        &&& self.second < 60
        &&& self.nanosecond < 1_000_000_000
        &&& -86400 < self.tz_offset_secs < 86400
    }

    /// The millisecond part within the second.
    pub fn millisecond(&self) -> (r: u32)
        ensures
            r == self.nanosecond / 1_000_000,
    {
        self.nanosecond / 1_000_000
    }

    /// The nanosecond part within the second.
    pub fn nanosecond(&self) -> (r: u32)
        ensures
            r == self.nanosecond,
    {
        self.nanosecond
    }

    /// The four-digit year, e.g. `2012`.
    pub fn year_str(&self) -> (r: String)
        requires
            self.wf(),
        ensures
            r@ == spec_dec_pad(self.year as nat, 4),
    {
        let mut s = String::new();
        push_dec_pad(&mut s, self.year as u64, 4);
        s
    }

    /// The last two digits of the year, e.g. `12`.
    pub fn year_short_str(&self) -> (r: String)
        ensures
            r@ == spec_dec_pad((self.year % 100) as nat, 2),
    {
        let mut s = String::new();
        push_dec_pad(&mut s, (self.year % 100) as u64, 2);
        s
    }

    /// The two-digit month, e.g. `03`.
    pub fn month_str(&self) -> (r: String)
        ensures
            r@ == spec_dec_pad(self.month as nat, 2),
    {
        let mut s = String::new();
        push_dec_pad(&mut s, self.month as u64, 2);
        s
    }

    /// The two-digit day of month, e.g. `04`.
    pub fn day_str(&self) -> (r: String)
        ensures
            r@ == spec_dec_pad(self.day as nat, 2),
    {
        let mut s = String::new();
        push_dec_pad(&mut s, self.day as u64, 2);
        s
    }

    /// The two-digit hour of the 24-hour clock, e.g. `05`.
    pub fn hour_str(&self) -> (r: String)
        ensures
            r@ == spec_dec_pad(self.hour as nat, 2),
    {
        let mut s = String::new();
        push_dec_pad(&mut s, self.hour as u64, 2);
        s
    }

    /// The hour on a 12-hour clock.
    pub fn hour12(&self) -> (r: u8)
        requires
            self.hour < 24,
        ensures
            r == spec_hour12(self.hour as int),
    {
        if self.hour == 0 {
            12
        } else if self.hour > 12 {
            self.hour - 12
        } else {
            self.hour
        }
    }

    /// The two-digit hour of the 12-hour clock, e.g. `11`.
    pub fn hour12_str(&self) -> (r: String)
        requires
            self.hour < 24,
        ensures
            r@ == spec_dec_pad(spec_hour12(self.hour as int) as nat, 2),
    {
        let mut s = String::new();
        push_dec_pad(&mut s, self.hour12() as u64, 2);
        s
    }

    /// The two-digit minute, e.g. `06`.
    pub fn minute_str(&self) -> (r: String)
        ensures
            r@ == spec_dec_pad(self.minute as nat, 2),
    {
        let mut s = String::new();
        push_dec_pad(&mut s, self.minute as u64, 2);
        s
    }

    /// The two-digit second, e.g. `07`.
    pub fn second_str(&self) -> (r: String)
        ensures
            r@ == spec_dec_pad(self.second as nat, 2),
    {
        let mut s = String::new();
        push_dec_pad(&mut s, self.second as u64, 2);
        s
    }

    /// `AM` before noon, `PM` from noon on.
    pub fn am_pm_str(&self) -> (r: &'static str)
        ensures
            r@ == spec_am_pm(self.hour as int),
    {
        if self.hour < 12 {
            "AM"
        } else {
            "PM"
        }
    }

    /// The abbreviated weekday name, e.g. `Sun`.
    pub fn weekday_name_short(&self) -> (r: &'static str)
        ensures
            r@ == spec_weekday_short(self.weekday as int),
    {
        match self.weekday {
            0 => "Sun",
            1 => "Mon",
            2 => "Tue",
            3 => "Wed",
            4 => "Thu",
            5 => "Fri",
            _ => "Sat",
        }
    }

    /// The full weekday name, e.g. `Sunday`.
    pub fn weekday_name_full(&self) -> (r: &'static str)
        ensures
            r@ == spec_weekday_full(self.weekday as int),
    {
        match self.weekday {
            0 => "Sunday",
            1 => "Monday",
            2 => "Tuesday",
            3 => "Wednesday",
            4 => "Thursday",
            5 => "Friday",
            _ => "Saturday",
        }
    }

    /// The abbreviated month name, e.g. `Mar`.
    pub fn month_name_short(&self) -> (r: &'static str)
        ensures
            r@ == spec_month_short(self.month as int),
    {
        match self.month {
            1 => "Jan",
            2 => "Feb",
            3 => "Mar",
            4 => "Apr",
            5 => "May",
            6 => "Jun",
            7 => "Jul",
            8 => "Aug",
            9 => "Sep",
            10 => "Oct",
            11 => "Nov",
            _ => "Dec",
        }
    }

    /// The full month name, e.g. `March`.
    pub fn month_name_full(&self) -> (r: &'static str)
        ensures
            r@ == spec_month_full(self.month as int),
    {
        match self.month {
            1 => "January",
            2 => "February",
            3 => "March",
            4 => "April",
            5 => "May",
            6 => "June",
            7 => "July",
            8 => "August",
            9 => "September",
            10 => "October",
            11 => "November",
            _ => "December",
        }
    }

    /// `YYYY-MM-DD HH:MM:SS`, e.g. `2012-03-04 05:06:07`.
    pub fn full_second_str(&self) -> (r: String)
        ensures
            r@ == spec_full_second(*self),
    {
        let mut s = String::new();
        push_dec_pad(&mut s, self.year as u64, 4);
        push_char(&mut s, '-');
        push_dec_pad(&mut s, self.month as u64, 2);
        push_char(&mut s, '-');
        push_dec_pad(&mut s, self.day as u64, 2);
        push_char(&mut s, ' ');
        push_dec_pad(&mut s, self.hour as u64, 2);
        push_char(&mut s, ':');
        push_dec_pad(&mut s, self.minute as u64, 2);
        push_char(&mut s, ':');
        push_dec_pad(&mut s, self.second as u64, 2);
        proof {
            assert(s@ =~= spec_full_second(*self));
        }
        s
    }

    /// The timezone offset as `+HH:MM` or `-HH:MM`, e.g. `+00:00`.
    pub fn tz_offset_str(&self) -> (r: String)
        requires
            -86400 < self.tz_offset_secs < 86400,
        ensures
            r@ == spec_tz_offset(self.tz_offset_secs as int),
    {
        let mut s = String::new();
        let a: u64;
        if self.tz_offset_secs < 0 {
            push_char(&mut s, '-');
            a = (-self.tz_offset_secs) as u64;
        } else {
            push_char(&mut s, '+');
            a = self.tz_offset_secs as u64;
        }
        push_dec_pad(&mut s, a / 3600, 2);
        push_char(&mut s, ':');
        push_dec_pad(&mut s, (a % 3600) / 60, 2);
        proof {
            assert(s@ =~= spec_tz_offset(self.tz_offset_secs as int));
        }
        s
    }

    /// The RFC-3339 rendering with nanosecond precision and local offset,
    /// e.g. `2012-03-04T05:06:07.000000000+00:00`.
    pub fn full_iso_8601_str(&self) -> (r: String)
        requires
            -86400 < self.tz_offset_secs < 86400,
        ensures
            r@ == spec_iso_8601(*self),
    {
        let mut s = String::new();
        push_dec_pad(&mut s, self.year as u64, 4);
        push_char(&mut s, '-');
        push_dec_pad(&mut s, self.month as u64, 2);
        push_char(&mut s, '-');
        push_dec_pad(&mut s, self.day as u64, 2);
        push_char(&mut s, 'T');
        push_dec_pad(&mut s, self.hour as u64, 2);
        push_char(&mut s, ':');
        push_dec_pad(&mut s, self.minute as u64, 2);
        push_char(&mut s, ':');
        push_dec_pad(&mut s, self.second as u64, 2);
        push_char(&mut s, '.');
        push_dec_pad(&mut s, self.nanosecond as u64, 9);
        let tz = self.tz_offset_str();
        s.append(tz.as_str());
        proof {
            assert(s@ =~= spec_iso_8601(*self));
        }
        s
    }

    /// The unix timestamp in whole seconds, e.g. `1330837567`.
    pub fn unix_timestamp_str(&self) -> (r: String)
        ensures
            r@ == spec_dec_signed(self.unix_timestamp as int),
    {
        let mut s = String::new();
        push_dec_i64(&mut s, self.unix_timestamp);
        s
    }
}

/// The cached decomposition of one represented second.
#[derive(Clone, Copy, PartialEq, Eq, Structural, Debug)]
pub struct CachedSecond {
    pub secs: i64,
    pub year: u16,
    pub month: u8,
    pub day: u8,
    pub weekday: u8,
    pub hour: u8,
    pub minute: u8,
    pub second: u8,
    pub tz_offset_secs: i32,
}

impl CachedSecond {
    /// Every field lies in its calendar range.
    pub open spec fn wf(&self) -> bool {
        &&& self.year <= 9999
        &&& 1 <= self.month <= 12
        &&& 1 <= self.day <= 31
        &&& self.weekday < 7
        &&& self.hour < 24
        &&& self.minute < 60
        &&& self.second < 60
        &&& -86400 < self.tz_offset_secs < 86400
    }
}

/// The decomposition a read of the cache hands out: the cached second's
/// calendar fields plus the requested instant's subsecond nanoseconds.
pub open spec fn spec_timedate(c: CachedSecond, nanos: u32) -> TimeDate {
    TimeDate {
        year: c.year,
        month: c.month,
        day: c.day,
        weekday: c.weekday,
        hour: c.hour,
        minute: c.minute,
        second: c.second,
        nanosecond: nanos,
        tz_offset_secs: c.tz_offset_secs,
        unix_timestamp: c.secs,
    }
}

fn make_timedate(c: &CachedSecond, nanos: u32) -> (td: TimeDate)
    ensures
        td == spec_timedate(*c, nanos),
{
    TimeDate {
        year: c.year,
        month: c.month,
        day: c.day,
        weekday: c.weekday,
        hour: c.hour,
        minute: c.minute,
        second: c.second,
        nanosecond: nanos,
        tz_offset_secs: c.tz_offset_secs,
        unix_timestamp: c.secs,
    }
}

/// What a successful read establishes: starting from cache state `pre`, a
/// read for the instant `t` leaves the cache in state `post`, holding `t`'s
/// second, and returns `td` — the cached fields plus `t`'s subsecond part.
/// A read within the second the cache already holds changes nothing.
pub open spec fn get_post(
    pre: LocalTimeCacher,
    t: Timestamp,
    post: LocalTimeCacher,
    td: TimeDate,
) -> bool {
    &&& post.has_second(t.secs)
    &&& td == spec_timedate(post.cached->0, t.nanos)
    &&& pre.has_second(t.secs) ==> post == pre
}

/// The cache itself: at most one second's decomposition. Callers that share
/// it across threads guard it with one lock and hold the lock only across a
/// read, never across a whole format call.
pub struct LocalTimeCacher {
    pub cached: Option<CachedSecond>,
}

impl LocalTimeCacher {
    /// The cached entry, if any, is well-formed.
    pub open spec fn wf(&self) -> bool {
        match self.cached {
            Some(c) => c.wf(),
            None => true,
        }
    }

    /// Whether the cache currently holds the decomposition of `secs`.
    pub open spec fn has_second(&self, secs: i64) -> bool {
        match self.cached {
            Some(c) => c.secs == secs,
            None => false,
        }
    }

    /// An empty cache; the first read fills it.
    pub fn new() -> (r: LocalTimeCacher)
        ensures
            r.cached is None,
            r.wf(),
    {
        LocalTimeCacher { cached: None }
    }

    /// The decomposition of `time`. A read within the represented second is
    /// a hit: it returns the cached fields unchanged, with only the subsecond
    /// part taken from `time`. Any other read — forward or backward — refills
    /// the cache from the local calendar, and fails only when the instant has
    /// no local-calendar representation this library can render.
    pub fn get(&mut self, time: Timestamp) -> (r: Result<TimeDate, FormatError>)
        requires
            old(self).wf(),
            time.wf(),
        ensures
            final(self).wf(),
            old(self).has_second(time.secs) ==> *final(self) == *old(self) && (r matches Ok(td)
                && td == spec_timedate(old(self).cached->0, time.nanos)),
            r matches Ok(td) ==> get_post(*old(self), time, *final(self), td) && td.wf(),
            r is Err ==> *final(self) == *old(self) && r == Err::<TimeDate, FormatError>(
                FormatError::TimeOutOfRange,
            ),
    {
        if let Some(c) = &self.cached {
            if c.secs == time.secs {
                return Ok(make_timedate(c, time.nanos));
            }
        }
        match local_parts(time.secs) {
            None => Err(FormatError::TimeOutOfRange),
            Some(p) => {
                if p.year < 0 || p.year > 9999 {
                    return Err(FormatError::TimeOutOfRange);
                }
                let c = CachedSecond {
                    secs: time.secs,
                    year: p.year as u16,
                    month: p.month,
                    day: p.day,
                    weekday: p.weekday,
                    hour: p.hour,
                    minute: p.minute,
                    second: p.second,
                    tz_offset_secs: p.tz_offset_secs,
                };
                let td = make_timedate(&c, time.nanos);
                self.cached = Some(c);
                Ok(td)
            },
        }
    }
}

/// Reads within one represented second agree: the decompositions the cache
/// hands out for two instants of the same cached second differ at most in
/// the subsecond part, so every cached calendar rendering is identical.
pub proof fn lemma_same_second_reads_agree(c: CachedSecond, n1: u32, n2: u32)
    ensures
        spec_timedate(c, n1).year == spec_timedate(c, n2).year,
        spec_timedate(c, n1).month == spec_timedate(c, n2).month,
        spec_timedate(c, n1).day == spec_timedate(c, n2).day,
        spec_timedate(c, n1).weekday == spec_timedate(c, n2).weekday,
        spec_timedate(c, n1).hour == spec_timedate(c, n2).hour,
        spec_timedate(c, n1).minute == spec_timedate(c, n2).minute,
        spec_timedate(c, n1).second == spec_timedate(c, n2).second,
        spec_timedate(c, n1).tz_offset_secs == spec_timedate(c, n2).tz_offset_secs,
        spec_timedate(c, n1).unix_timestamp == spec_timedate(c, n2).unix_timestamp,
        spec_full_second(spec_timedate(c, n1)) == spec_full_second(spec_timedate(c, n2)),
        spec_tz_offset(spec_timedate(c, n1).tz_offset_secs as int) == spec_tz_offset(
            spec_timedate(c, n2).tz_offset_secs as int,
        ),
{
}

/// A repeated read is a hit: after one successful read for an instant, a
/// second read for the same instant leaves the cache untouched and returns
/// the identical decomposition.
pub proof fn lemma_repeat_get(
    c0: LocalTimeCacher,
    c1: LocalTimeCacher,
    c2: LocalTimeCacher,
    t: Timestamp,
    td1: TimeDate,
    td2: TimeDate,
)
    requires
        get_post(c0, t, c1, td1),
        get_post(c1, t, c2, td2),
    ensures
        c2 == c1,
        td2 == td1,
{
}

} // verus!
