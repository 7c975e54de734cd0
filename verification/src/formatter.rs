//! The formatter capability: a formatter appends one record's text to an
//! output buffer and reports style metadata. Implementations are pure beyond
//! the buffer and the injected time cache, and a duplicate is an independent
//! instance with the same behaviour.

use vstd::prelude::*;
use crate::StringBuf;
use crate::error::FormatError;
use crate::local_time_cacher::{spec_timedate, LocalTimeCacher, TimeDate};
use crate::record::{Record, Timestamp};

verus! {

/// Style metadata for one formatted record: when present, the half-open
/// range of character positions in the output buffer holding the styled
/// token (typically the level word), for later terminal colorization.
#[derive(Clone, Copy, PartialEq, Eq, Debug)]
pub struct FmtExtraInfo {
    pub style_range: Option<(usize, usize)>,
}

impl FmtExtraInfo {
    /// Metadata with no styled token.
    pub fn new() -> (r: FmtExtraInfo)
        ensures
            r.style_range is None,
    {
        FmtExtraInfo { style_range: None }
    }

    /// The styled character range, if one was reported.
    pub fn style_range(&self) -> (r: Option<(usize, usize)>)
        ensures
            r == self.style_range,
    {
        self.style_range
    }
}

impl Default for FmtExtraInfo {
    fn default() -> (r: FmtExtraInfo)
        ensures
            r.style_range is None,
    {
        FmtExtraInfo { style_range: None }
    }
}

/// The decomposition a cache in state `c` hands out for the instant `t`:
/// meaningful whenever `c.has_second(t.secs)`.
pub open spec fn cache_td(c: LocalTimeCacher, t: Timestamp) -> TimeDate {
    spec_timedate(c.cached->0, t.nanos)
}

/// Whether a reported character range equals the specified one.
pub open spec fn range_matches(o: Option<(usize, usize)>, s: Option<(int, int)>) -> bool {
    match (o, s) {
        (Some(r), Some(t)) => r.0 as int == t.0 && r.1 as int == t.1,
        (None, None) => true,
        _ => false,
    }
}

/// Whether the reported style metadata equals the specified range.
pub open spec fn style_matches(info: FmtExtraInfo, s: Option<(int, int)>) -> bool {
    range_matches(info.style_range, s)
}

/// A formatter turns a record into text plus style metadata.
///
/// The contract every implementation carries: a successful call appends
/// exactly `spec_rendered` of the record and the decomposition of its
/// instant, reports the style range `spec_style` says, and touches nothing
/// else; a failed call leaves the buffer and the cache exactly as they were.
/// A formatter that does not read the record's instant leaves the cache
/// unchanged and cannot fail; one that does fails only when the instant has
/// no local-calendar representation, and never when the cache already holds
/// the record's second.
pub trait Formatter: Sized {
    /// Whether `format` reads the record's instant (and so the time cache).
    spec fn uses_time(&self) -> bool;

    /// The exact text this formatter appends for `record`, given the
    /// decomposition `td` of the record's instant. Independent of `td`
    /// whenever `uses_time()` is false.
    spec fn spec_rendered(&self, record: &Record, td: TimeDate) -> Seq<char>;

    /// The style range this formatter reports, as character positions in a
    /// buffer that held `base` characters before the call.
    spec fn spec_style(&self, record: &Record, td: TimeDate, base: int) -> Option<(int, int)>;

    /// Appends `record`'s text to `dest` and reports the style metadata.
    fn format(&self, record: &Record, dest: &mut StringBuf, cacher: &mut LocalTimeCacher) -> (r:
        Result<FmtExtraInfo, FormatError>)
        requires
            old(cacher).wf(),
            record.time.wf(),
        ensures
            final(cacher).wf(),
            !self.uses_time() ==> *final(cacher) == *old(cacher) && r is Ok,
            old(cacher).has_second(record.time.secs) ==> *final(cacher) == *old(cacher) && r
                is Ok,
            r matches Ok(info) ==> (self.uses_time() ==> final(cacher).has_second(
                record.time.secs,
            )) && final(dest)@ == old(dest)@ + self.spec_rendered(
                record,
                cache_td(*final(cacher), record.time),
            ) && style_matches(
                info,
                self.spec_style(
                    record,
                    cache_td(*final(cacher), record.time),
                    old(dest)@.len() as int,
                ),
            ),
            r matches Err(e) ==> final(dest)@ == old(dest)@ && *final(cacher) == *old(cacher)
                && e == FormatError::TimeOutOfRange,
    ;

    /// An independent instance with the same compiled behaviour: for every
    /// record and every decomposition, the duplicate renders the same text
    /// and reports the same style range as the original.
    fn duplicate(&self) -> (r: Self)
        ensures
            r.uses_time() == self.uses_time(),
            forall|record: Record, td: TimeDate|
                r.spec_rendered(&record, td) == self.spec_rendered(&record, td),
            forall|record: Record, td: TimeDate, base: int|
                r.spec_style(&record, td, base) == self.spec_style(&record, td, base),
    ;
}

/// Formatting one record twice with one formatter yields byte-identical
/// output. The first successful call reads the cache (postcondition
/// `get_post`, leaving state `c1` and decomposition `td1`) and appends
/// exactly the rendering of `td1`; the second call's read from `c1` is then
/// a hit, so `td2 == td1`, and the appended text — a function of the
/// formatter, the record and the decomposition alone — is the same
/// character for character.
pub proof fn lemma_format_twice<F: Formatter>(
    f: &F,
    r: &Record,
    c0: LocalTimeCacher,
    c1: LocalTimeCacher,
    c2: LocalTimeCacher,
    td1: TimeDate,
    td2: TimeDate,
    out1: Seq<char>,
    out2: Seq<char>,
)
    requires
        crate::local_time_cacher::get_post(c0, r.time, c1, td1),
        crate::local_time_cacher::get_post(c1, r.time, c2, td2),
        out1 == f.spec_rendered(r, td1),
        out2 == f.spec_rendered(r, td2),
    ensures
        c2 == c1,
        out1 == out2,
{
    crate::local_time_cacher::lemma_repeat_get(c0, c1, c2, r.time, td1, td2);
}


} // verus!
