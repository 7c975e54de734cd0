//! The date-and-hour rotation policy: which file a record belongs in, and
//! when the sink must switch to a new one. The sink that owns the files
//! performs the I/O; the decisions and the path arithmetic live here.

use vstd::prelude::*;
use vstd::string::{StrSliceExecFns, StringExecFns};
use crate::digits::{push_char, push_dec_pad, spec_dec_pad};
use crate::local_time_cacher::TimeDate;
use crate::record::Timestamp;

verus! {

/// The position of the last occurrence of `c` in `s`, or `-1` when `s`
/// holds none.
pub open spec fn spec_last_index_of(s: Seq<char>, c: char) -> int
    decreases s.len(),
{
    if s.len() == 0 {
        -1
    } else if s[s.len() - 1] == c {
        s.len() - 1
    } else {
        spec_last_index_of(s.drop_last(), c)
    }
}

/// A position after which `c` does not occur, and which holds `c` (or is
/// `-1` with no `c` at all), is the last occurrence.
proof fn lemma_last_index_of_is(s: Seq<char>, c: char, k: int)
    requires
        -1 <= k < s.len() || (k == -1 && s.len() == 0),
        k >= 0 ==> s[k] == c,
        forall|j: int| k < j < s.len() ==> s[j] != c,
    ensures
        spec_last_index_of(s, c) == k,
    decreases s.len(),
{
    if s.len() == 0 {
    } else if s[s.len() - 1] == c {
        assert(k == s.len() - 1);
    } else {
        assert(k < s.len() - 1);
        lemma_last_index_of_is(s.drop_last(), c, k);
    }
}

/// The file a record stamped at the given local calendar fields belongs in:
/// the base path's directory, then `YYYYMMDD` as a directory, then the base
/// file name with `_HH` before its extension.
pub open spec fn spec_calc_file_path(p: Seq<char>, y: int, mo: int, d: int, h: int) -> Seq<
    char,
> {
    let ls = spec_last_index_of(p, '/');
    let dir = p.take(ls + 1);
    let name = p.skip(ls + 1);
    let dot = spec_last_index_of(name, '.');
    let stem = if dot <= 0 {
        name
    } else {
        name.take(dot)
    };
    let ext = if dot > 0 && dot + 1 < name.len() {
        seq!['.'] + name.skip(dot + 1)
    } else {
        Seq::empty()
    };
    dir + spec_dec_pad(y as nat, 4) + spec_dec_pad(mo as nat, 2) + spec_dec_pad(d as nat, 2)
        + seq!['/'] + stem + seq!['_'] + spec_dec_pad(h as nat, 2) + ext
}

/// The position right after the last occurrence of `c`, or `0` when `s`
/// holds none: the scan the path split is built on.
fn scan_after_last(s: &str, c: char) -> (start: usize)
    ensures
        start <= s@.len(),
        spec_last_index_of(s@, c) == start as int - 1,
{
    let n = s.unicode_len();
    let mut start: usize = n;
    loop
        invariant
            0 <= start <= n,
            n == s@.len(),
            forall|j: int| start <= j < n ==> s@[j] != c,
        ensures
            0 <= start <= n,
            forall|j: int| start <= j < n ==> s@[j] != c,
            start == 0 || s@[start as int - 1] == c,
        decreases start,
    {
        if start == 0 {
            break ;
        }
        if s.get_char(start - 1) == c {
            break ;
        }
        start = start - 1;
    }
    proof {
        lemma_last_index_of_is(s@, c, start as int - 1);
    }
    start
}

/// The path of the log file for the calendar fields of `td`: the base
/// path's directory, `YYYYMMDD`, and the base file name with `_HH` inserted
/// before the extension. `/tmp/test.log` on 2012-03-04 at hour 05 becomes
/// `/tmp/20120304/test_05.log`. The base path must name a file: it may not
/// be empty or end in `/`.
pub fn calc_file_path(base_path: &str, td: &TimeDate) -> (r: String)
    requires
        td.wf(),
        base_path@.len() > 0,
        base_path@[base_path@.len() - 1] != '/',
    ensures
        r@ == spec_calc_file_path(
            base_path@,
            td.year as int,
            td.month as int,
            td.day as int,
            td.hour as int,
        ),
{
    let n = base_path.unicode_len();
    let start = scan_after_last(base_path, '/');
    let dir = base_path.substring_char(0, start);
    let name = base_path.substring_char(start, n);
    let nl = name.unicode_len();
    let dstart = scan_after_last(name, '.');
    let mut out = String::new();
    out.append(dir);
    push_dec_pad(&mut out, td.year as u64, 4);
    push_dec_pad(&mut out, td.month as u64, 2);
    push_dec_pad(&mut out, td.day as u64, 2);
    push_char(&mut out, '/');
    if dstart >= 2 {
        out.append(name.substring_char(0, dstart - 1));
    } else {
        out.append(name);
    }
    push_char(&mut out, '_');
    push_dec_pad(&mut out, td.hour as u64, 2);
    if dstart >= 2 && dstart < nl {
        push_char(&mut out, '.');
        out.append(name.substring_char(dstart, nl));
    }
    proof {
        assert(name@ =~= base_path@.skip(start as int));
        assert(base_path@.take(start as int) == dir@);
        let dot = spec_last_index_of(name@, '.');
        assert(dot == dstart as int - 1);
        if dstart >= 2 {
            assert(name@.take(dot) =~= name@.subrange(0, dstart as int - 1));
        }
        if dstart >= 2 && dstart < nl {
            assert(name@.skip(dot + 1) =~= name@.subrange(dstart as int, nl as int));
        }
        assert(out@ =~= spec_calc_file_path(
            base_path@,
            td.year as int,
            td.month as int,
            td.day as int,
            td.hour as int,
        ));
    }
    out
}

/// The next whole hour after `secs`: the rotation instant that follows a
/// record stamped at `secs`.
pub open spec fn spec_next_rotation(secs: int) -> int {
    (secs / 3600) * 3600 + 3600
}

/// The next whole hour after `secs`.
pub fn next_rotation_time_point(secs: i64) -> (r: i64)
    requires
        0 <= secs <= i64::MAX - 7200,
    ensures
        r == spec_next_rotation(secs as int),
{
    (secs / 3600) * 3600 + 3600
}

/// The rotation state of a date-and-hour sink: the instant at which the
/// current file ends. A record at or after it goes to a fresh file.
#[derive(Clone, Copy, PartialEq, Eq, Structural, Debug)]
pub struct RotatorTimePoint {
    pub rotation_time_point: i64,
}

impl RotatorTimePoint {
    /// The state for a sink opened at `now`: the current file ends at the
    /// next whole hour.
    pub fn new(now: Timestamp) -> (r: RotatorTimePoint)
        requires
            0 <= now.secs <= i64::MAX - 7200,
        ensures
            r.rotation_time_point == spec_next_rotation(now.secs as int),
    {
        RotatorTimePoint { rotation_time_point: next_rotation_time_point(now.secs) }
    }

    /// Decides whether a record stamped at `time` forces a rotation, and
    /// advances the state past that record's hour when it does. The decision
    /// is `time >= rotation_time_point`, so a clock that jumped backward
    /// before the current file's hour also rotates — stale state is never
    /// kept once the boundary is crossed.
    pub fn check(&mut self, time: Timestamp) -> (rotate: bool)
        requires
            0 <= time.secs <= i64::MAX - 7200,
        ensures
            rotate == (time.secs >= old(self).rotation_time_point),
            rotate ==> final(self).rotation_time_point == spec_next_rotation(time.secs as int),
            !rotate ==> *final(self) == *old(self),
    {
        if time.secs >= self.rotation_time_point {
            self.rotation_time_point = next_rotation_time_point(time.secs);
            true
        } else {
            false
        }
    }
}

} // verus!
