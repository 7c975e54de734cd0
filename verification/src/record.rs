//! The immutable per-call event data: an instant, a severity, the payload
//! text, and the optional logger name and source location.

use vstd::prelude::*;
use vstd::string::StrSliceExecFns;
use crate::level::Level;

verus! {

/// A nanosecond-resolution instant: non-leap seconds since the Unix epoch
/// plus the nanoseconds since that second's boundary.
#[derive(Clone, Copy, PartialEq, Eq, Structural, Debug)]
pub struct Timestamp {
    pub secs: i64,
    pub nanos: u32,
}

impl Timestamp {
    /// A well-formed instant keeps its subsecond part below one second.
    pub open spec fn wf(&self) -> bool {
        self.nanos < 1_000_000_000
    }

    pub fn new(secs: i64, nanos: u32) -> (r: Timestamp)
        requires
            nanos < 1_000_000_000,
        ensures
            r == (Timestamp { secs, nanos }),
    {
        Timestamp { secs, nanos }
    }

    /// Whether `self` is at or after `other` in time.
    pub open spec fn spec_ge(self, other: Timestamp) -> bool {
        self.secs > other.secs || (self.secs == other.secs && self.nanos >= other.nanos)
    }

    /// Whether `self` is at or after `other` in time.
    pub fn is_at_or_after(&self, other: &Timestamp) -> (r: bool)
        ensures
            r == self.spec_ge(*other),
    {
        self.secs > other.secs || (self.secs == other.secs && self.nanos >= other.nanos)
    }
}

/// Relies on chrono's `Utc::now`, `DateTime::timestamp` and
/// `DateTime::timestamp_subsec_nanos`: the pair is the current instant as
/// non-leap seconds since the Unix epoch and the nanoseconds since the last
/// second boundary; the subsecond part is below 2_000_000_000 (a value of
/// 1_000_000_000 or more encodes a leap second). `Utc::now` itself panics
/// when the system clock reads before the Unix epoch.
#[verifier::external_body]
fn now_parts() -> (r: (i64, u32))
    ensures
        r.1 < 2_000_000_000,
{
    let now = chrono::Utc::now();
    (now.timestamp(), now.timestamp_subsec_nanos())
}

/// The current instant. During a leap second the subsecond part is folded
/// back below one second, so the result is always well-formed.
pub fn now() -> (r: Timestamp)
    ensures
        r.wf(),
{
    let (secs, nanos) = now_parts();
    if nanos >= 1_000_000_000 {
        Timestamp { secs, nanos: nanos - 1_000_000_000 }
    } else {
        Timestamp { secs, nanos }
    }
}

/// Where in the sources a record was emitted.
#[derive(Clone, PartialEq, Eq, Debug)]
pub struct SourceLocation {
    pub module: String,
    pub file: String,
    pub line: u32,
    pub column: u32,
}

/// The characters of `s` after its last `/`; all of `s` when it holds none.
pub open spec fn spec_basename(s: Seq<char>) -> Seq<char>
    decreases s.len(),
{
    if s.len() == 0 {
        s
    } else if s[s.len() - 1] == '/' {
        Seq::empty()
    } else {
        spec_basename(s.drop_last()).push(s[s.len() - 1])
    }
}

impl SourceLocation {
    pub fn new(module: &str, file: &str, line: u32, column: u32) -> (r: SourceLocation)
        ensures
            r.module@ == module@,
            r.file@ == file@,
            r.line == line,
            r.column == column,
    {
        SourceLocation {
            module: module.to_owned(),
            file: file.to_owned(),
            line,
            column,
        }
    }

    pub fn module(&self) -> (r: &str)
        ensures
            r@ == self.module@,
    {
        self.module.as_str()
    }

    pub fn file(&self) -> (r: &str)
        ensures
            r@ == self.file@,
    {
        self.file.as_str()
    }

    pub fn line(&self) -> (r: u32)
        ensures
            r == self.line,
    {
        self.line
    }

    pub fn column(&self) -> (r: u32)
        ensures
            r == self.column,
    {
        self.column
    }

    /// The base name of the file: what follows the last `/` of its path.
    pub fn file_name(&self) -> (r: &str)
        ensures
            r@ == spec_basename(self.file@),
    {
        let s = self.file.as_str();
        let n = s.unicode_len();
        let mut start: usize = n;
        loop
            invariant
                0 <= start <= n,
                n == s@.len(),
                forall|j: int| start <= j < n ==> s@[j] != '/',
            ensures
                0 <= start <= n,
                forall|j: int| start <= j < n ==> s@[j] != '/',
                start == 0 || s@[start as int - 1] == '/',
            decreases start,
        {
            if start == 0 {
                break ;
            }
            if s.get_char(start - 1) == '/' {
                break ;
            }
            start = start - 1;
        }
        proof {
            lemma_basename_suffix(s@, start as int);
        }
        s.substring_char(start, n)
    }
}

/// After the last `/`, `spec_basename` is the suffix that follows it: if no
/// character of `s` from `k` on is a `/`, and `k` is `0` or preceded by a
/// `/`, then the base name of `s` is exactly `s` from `k` on.
proof fn lemma_basename_suffix(s: Seq<char>, k: int)
    requires
        0 <= k <= s.len(),
        forall|j: int| k <= j < s.len() ==> s[j] != '/',
        k == 0 || s[k - 1] == '/',
    ensures
        spec_basename(s) == s.subrange(k, s.len() as int),
    decreases s.len(),
{
    if s.len() == 0 {
        assert(spec_basename(s) =~= s.subrange(k, s.len() as int));
    } else if k == s.len() {
        assert(s[s.len() - 1] == '/');
        assert(spec_basename(s) =~= s.subrange(k, s.len() as int));
    } else {
        assert(s[s.len() - 1] != '/');
        lemma_basename_suffix(s.drop_last(), k);
        assert(spec_basename(s) =~= s.subrange(k, s.len() as int));
    }
}

/// One captured log event. Immutable for the duration of a format-and-deliver
/// cycle; `set_time` exists so tests can pin the instant.
#[derive(Clone, Debug)]
pub struct Record {
    pub level: Level,
    pub payload: String,
    pub time: Timestamp,
    pub logger_name: Option<String>,
    pub source_location: Option<SourceLocation>,
    pub tid: u64,
}

impl Record {
    /// A record of severity `level` carrying `payload`, stamped with the
    /// current instant; no logger name, no source location, thread id zero.
    pub fn new(level: Level, payload: &str) -> (r: Record)
        ensures
            r.level == level,
            r.payload@ == payload@,
            r.time.wf(),
            r.logger_name is None,
            r.source_location is None,
            r.tid == 0,
    {
        Record {
            level,
            payload: payload.to_owned(),
            time: now(),
            logger_name: None,
            source_location: None,
            tid: 0,
        }
    }

    pub fn level(&self) -> (r: Level)
        ensures
            r == self.level,
    {
        self.level
    }

    pub fn payload(&self) -> (r: &str)
        ensures
            r@ == self.payload@,
    {
        self.payload.as_str()
    }

    pub fn time(&self) -> (r: Timestamp)
        ensures
            r == self.time,
    {
        self.time
    }

    pub fn logger_name(&self) -> (r: Option<&str>)
        ensures
            match r {
                Some(n) => self.logger_name matches Some(m) && n@ == m@,
                None => self.logger_name is None,
            },
    {
        match &self.logger_name {
            Some(n) => Some(n.as_str()),
            None => None,
        }
    }

    pub fn source_location(&self) -> (r: Option<&SourceLocation>)
        ensures
            match r {
                Some(l) => self.source_location matches Some(m) && *l == m,
                None => self.source_location is None,
            },
    {
        match &self.source_location {
            Some(l) => Some(l),
            None => None,
        }
    }

    pub fn tid(&self) -> (r: u64)
        ensures
            r == self.tid,
    {
        self.tid
    }

    /// Replaces the record's instant; meant for tests that need a known one.
    pub fn set_time(&mut self, time: Timestamp)
        requires
            time.wf(),
        ensures
            *final(self) == (Record { time, ..*old(self) }),
    {
        self.time = time;
    }

    /// The same record under a logger name.
    pub fn with_logger_name(self, name: &str) -> (r: Record)
        ensures
            r.logger_name matches Some(n) && n@ == name@,
            r.level == self.level && r.payload == self.payload && r.time == self.time
                && r.source_location == self.source_location && r.tid == self.tid,
    {
        Record { logger_name: Some(name.to_owned()), ..self }
    }

    /// The same record with a source location attached.
    pub fn with_source_location(self, loc: SourceLocation) -> (r: Record)
        ensures
            r.source_location matches Some(l) && l == loc,
            r.level == self.level && r.payload == self.payload && r.time == self.time
                && r.logger_name == self.logger_name && r.tid == self.tid,
    {
        Record { source_location: Some(loc), ..self }
    }

    /// The same record under another thread id.
    pub fn with_tid(self, tid: u64) -> (r: Record)
        ensures
            r.tid == tid,
            r.level == self.level && r.payload == self.payload && r.time == self.time
                && r.logger_name == self.logger_name && r.source_location == self.source_location,
    {
        Record { tid, ..self }
    }
}

} // verus!
