//! The template parser. The wire format: literal runs pass through
//! unchanged, `{{` and `}}` escape literal braces, `{name}` invokes the
//! built-in field registered under `name`, and `{^...}` marks the styled
//! span. The grammar is a recursive function on the character sequence; the
//! executable parser is its recursive twin, one branch for one branch.

use vstd::prelude::*;
use vstd::string::StrSliceExecFns;
use crate::error::TemplateError;
use crate::pattern_formatter::{field_of_name, spec_field_of, PatternItem, SpecPatternItem};

verus! {

/// The mathematical value of a template error.
pub enum SpecTemplateError {
    UnknownField { name: Seq<char>, pos: int },
    Malformed { pos: int },
    NestedStyle { pos: int },
    SecondStyle { pos: int },
}

impl View for TemplateError {
    type V = SpecTemplateError;

    open spec fn view(&self) -> SpecTemplateError {
        match self {
            TemplateError::UnknownField { name, pos } => SpecTemplateError::UnknownField {
                name: name@,
                pos: *pos as int,
            },
            TemplateError::Malformed { pos } => SpecTemplateError::Malformed { pos: *pos as int },
            TemplateError::NestedStyle { pos } => SpecTemplateError::NestedStyle {
                pos: *pos as int,
            },
            TemplateError::SecondStyle { pos } => SpecTemplateError::SecondStyle {
                pos: *pos as int,
            },
        }
    }
}

/// Whether `c` can occur in a field name: a lower-case letter, a digit, or
/// an underscore.
pub open spec fn spec_is_name_char(c: char) -> bool {
    ('a' as u32 <= c as u32 && c as u32 <= 'z' as u32) || ('0' as u32 <= c as u32 && c as u32
        <= '9' as u32) || c == '_'
}

/// Whether `c` can occur in a field name.
pub fn is_name_char(c: char) -> (r: bool)
    ensures
        r == spec_is_name_char(c),
{
    (c as u32 >= 'a' as u32 && c as u32 <= 'z' as u32) || (c as u32 >= '0' as u32 && c as u32
        <= '9' as u32) || c == '_'
}

/// The first position at or after `i` holding a brace, or the end of `s`.
pub open spec fn lit_end(s: Seq<char>, i: int) -> int
    decreases s.len() - i,
{
    if i < 0 {
        0
    } else if i >= s.len() {
        i
    } else if s[i] == '{' || s[i] == '}' {
        i
    } else {
        lit_end(s, i + 1)
    }
}

/// The first position at or after `i` holding a character that cannot occur
/// in a field name, or the end of `s`.
pub open spec fn name_end(s: Seq<char>, i: int) -> int
    decreases s.len() - i,
{
    if i < 0 {
        0
    } else if i >= s.len() {
        i
    } else if !spec_is_name_char(s[i]) {
        i
    } else {
        name_end(s, i + 1)
    }
}

pub proof fn lemma_lit_end(s: Seq<char>, i: int)
    requires
        0 <= i <= s.len(),
    ensures
        i <= lit_end(s, i) <= s.len(),
        forall|j: int| i <= j < lit_end(s, i) ==> s[j] != '{' && s[j] != '}',
        lit_end(s, i) < s.len() ==> (s[lit_end(s, i)] == '{' || s[lit_end(s, i)] == '}'),
    decreases s.len() - i,
{
    if i < s.len() && s[i] != '{' && s[i] != '}' {
        lemma_lit_end(s, i + 1);
    }
}

pub proof fn lemma_name_end(s: Seq<char>, i: int)
    requires
        0 <= i <= s.len(),
    ensures
        i <= name_end(s, i) <= s.len(),
        forall|j: int| i <= j < name_end(s, i) ==> spec_is_name_char(s[j]),
        name_end(s, i) < s.len() ==> !spec_is_name_char(s[name_end(s, i)]),
    decreases s.len() - i,
{
    if i < s.len() && spec_is_name_char(s[i]) {
        lemma_name_end(s, i + 1);
    }
}

/// A position with the properties of `lit_end` is `lit_end`.
proof fn lemma_lit_end_is(s: Seq<char>, i: int, j: int)
    requires
        0 <= i <= j <= s.len(),
        forall|k: int| i <= k < j ==> s[k] != '{' && s[k] != '}',
        j < s.len() ==> (s[j] == '{' || s[j] == '}'),
    ensures
        lit_end(s, i) == j,
    decreases j - i,
{
    if i < j {
        lemma_lit_end_is(s, i + 1, j);
    }
}

/// A position with the properties of `name_end` is `name_end`.
proof fn lemma_name_end_is(s: Seq<char>, i: int, j: int)
    requires
        0 <= i <= j <= s.len(),
        forall|k: int| i <= k < j ==> spec_is_name_char(s[k]),
        j < s.len() ==> !spec_is_name_char(s[j]),
    ensures
        name_end(s, i) == j,
    decreases j - i,
{
    if i < j {
        lemma_name_end_is(s, i + 1, j);
    }
}

/// The styled item range, moved one item to the right: what prepending an
/// item in front of a parse result does to the range outside a styled span.
pub open spec fn shift_span(sp: Option<(int, int)>) -> Option<(int, int)> {
    match sp {
        Some((a, b)) => Some((a + 1, b + 1)),
        None => None,
    }
}

/// The styled item range grown by the item prepended in front of it: inside
/// a styled span the new first item is styled too.
pub open spec fn extend_span(sp: Option<(int, int)>) -> Option<(int, int)> {
    match sp {
        Some((a, b)) => Some((0int, b + 1)),
        None => None,
    }
}

/// One item prepended in front of a parse result, the styled range adjusted
/// for the mode the item was read in.
pub open spec fn spec_prepend(
    t: SpecPatternItem,
    in_open: bool,
    r: Result<(Seq<SpecPatternItem>, Option<(int, int)>), SpecTemplateError>,
) -> Result<(Seq<SpecPatternItem>, Option<(int, int)>), SpecTemplateError> {
    match r {
        Ok((ts, sp)) => Ok(
            (
                seq![t] + ts,
                if in_open {
                    extend_span(sp)
                } else {
                    shift_span(sp)
                },
            ),
        ),
        Err(e) => Err(e),
    }
}

/// The parse of `s` from position `i` on. `open_at` is the position of the
/// styled span's `{^` while one is open; `seen` records that a styled span
/// occurred, so that a second one is refused. The result pairs the items
/// with the styled item range: inside an open span the range is the span's
/// items read so far, counted from the front of the returned sequence.
pub open spec fn spec_parse(s: Seq<char>, i: int, open_at: Option<int>, seen: bool) -> Result<
    (Seq<SpecPatternItem>, Option<(int, int)>),
    SpecTemplateError,
>
    decreases s.len() - i,
    via spec_parse_dec
{
    if i >= s.len() {
        match open_at {
            Some(p) => Err(SpecTemplateError::Malformed { pos: p }),
            None => Ok((Seq::empty(), None)),
        }
    } else if s[i] == '}' {
        if i + 1 < s.len() && s[i + 1] == '}' {
            spec_prepend(
                SpecPatternItem::Literal(seq!['}']),
                open_at is Some,
                spec_parse(s, i + 2, open_at, seen),
            )
        } else if open_at is Some {
            match spec_parse(s, i + 1, None, true) {
                Ok((ts, _)) => Ok((ts, Some((0int, 0int)))),
                Err(e) => Err(e),
            }
        } else {
            Err(SpecTemplateError::Malformed { pos: i })
        }
    } else if s[i] == '{' {
        if i + 1 >= s.len() {
            Err(SpecTemplateError::Malformed { pos: i })
        } else if s[i + 1] == '{' {
            spec_prepend(
                SpecPatternItem::Literal(seq!['{']),
                open_at is Some,
                spec_parse(s, i + 2, open_at, seen),
            )
        } else if s[i + 1] == '^' {
            if open_at is Some {
                Err(SpecTemplateError::NestedStyle { pos: i })
            } else if seen {
                Err(SpecTemplateError::SecondStyle { pos: i })
            } else {
                spec_parse(s, i + 2, Some(i), true)
            }
        } else {
            let j = name_end(s, i + 1);
            if j >= s.len() || s[j] != '}' {
                Err(SpecTemplateError::Malformed { pos: i })
            } else {
                match spec_field_of(s.subrange(i + 1, j)) {
                    Some(k) => spec_prepend(
                        SpecPatternItem::Field(k),
                        open_at is Some,
                        spec_parse(s, j + 1, open_at, seen),
                    ),
                    None => Err(
                        SpecTemplateError::UnknownField { name: s.subrange(i + 1, j), pos: i },
                    ),
                }
            }
        }
    } else {
        let j = lit_end(s, i);
        spec_prepend(
            SpecPatternItem::Literal(s.subrange(i, j)),
            open_at is Some,
            spec_parse(s, j, open_at, seen),
        )
    }
}

#[via_fn]
proof fn spec_parse_dec(s: Seq<char>, i: int, open_at: Option<int>, seen: bool) {
    if 0 <= i && i <= s.len() {
        lemma_lit_end(s, i);
    }
    if 0 <= i + 1 && i + 1 <= s.len() {
        lemma_name_end(s, i + 1);
    }
}

/// The view of an optional position.
pub open spec fn spec_opt_pos(o: Option<usize>) -> Option<int> {
    match o {
        Some(p) => Some(p as int),
        None => None,
    }
}

/// The view of an optional item range.
pub open spec fn spec_opt_span(o: Option<(usize, usize)>) -> Option<(int, int)> {
    match o {
        Some((a, b)) => Some((a as int, b as int)),
        None => None,
    }
}

/// The executable twin of `spec_parse`: same positions, same items, same
/// errors.
pub(crate) fn parse_at(s: &str, i: usize, open_at: Option<usize>, seen: bool) -> (r: Result<
    (Vec<PatternItem>, Option<(usize, usize)>),
    TemplateError,
>)
    requires
        i <= s@.len(),
    ensures
        ({
            let sr = spec_parse(s@, i as int, spec_opt_pos(open_at), seen);
            match r {
                Ok((ts, sp)) => sr matches Ok(p) && p.0 == ts.deep_view() && p.1 == spec_opt_span(
                    sp,
                ) && ts@.len() + i <= s@.len() && (match sp {
                    Some((a, b)) => a <= b <= ts@.len(),
                    None => true,
                }),
                Err(e) => sr matches Err(se) && se == e@,
            }
        }),
    decreases s@.len() - i,
{
    let n = s.unicode_len();
    if i >= n {
        match open_at {
            Some(p) => Err(TemplateError::Malformed { pos: p }),
            None => {
                let ts: Vec<PatternItem> = Vec::new();
                proof {
                    assert(ts.deep_view() =~= Seq::<SpecPatternItem>::empty());
                }
                Ok((ts, None))
            },
        }
    } else {
        let c = s.get_char(i);
        if c == '}' {
            if i + 1 < n && s.get_char(i + 1) == '}' {
                match parse_at(s, i + 2, open_at, seen) {
                    Ok((ts, sp)) => Ok(prepend_item(lit_of_char('}'), open_at.is_some(), ts, sp)),
                    Err(e) => Err(e),
                }
            } else if open_at.is_some() {
                match parse_at(s, i + 1, None, true) {
                    Ok((ts, _)) => Ok((ts, Some((0, 0)))),
                    Err(e) => Err(e),
                }
            } else {
                Err(TemplateError::Malformed { pos: i })
            }
        } else if c == '{' {
            if i + 1 >= n {
                Err(TemplateError::Malformed { pos: i })
            } else {
                let c1 = s.get_char(i + 1);
                if c1 == '{' {
                    match parse_at(s, i + 2, open_at, seen) {
                        Ok((ts, sp)) => Ok(
                            prepend_item(lit_of_char('{'), open_at.is_some(), ts, sp),
                        ),
                        Err(e) => Err(e),
                    }
                } else if c1 == '^' {
                    if open_at.is_some() {
                        Err(TemplateError::NestedStyle { pos: i })
                    } else if seen {
                        Err(TemplateError::SecondStyle { pos: i })
                    } else {
                        parse_at(s, i + 2, Some(i), true)
                    }
                } else {
                    let j = scan_name_end(s, i + 1);
                    proof {
                        lemma_name_end(s@, i as int + 1);
                    }
                    if j >= n || s.get_char(j) != '}' {
                        Err(TemplateError::Malformed { pos: i })
                    } else {
                        let name = s.substring_char(i + 1, j);
                        match field_of_name(name) {
                            Some(k) => match parse_at(s, j + 1, open_at, seen) {
                                Ok((ts, sp)) => Ok(
                                    prepend_item(PatternItem::Field(k), open_at.is_some(), ts, sp),
                                ),
                                Err(e) => Err(e),
                            },
                            None => Err(
                                TemplateError::UnknownField { name: name.to_owned(), pos: i },
                            ),
                        }
                    }
                }
            }
        } else {
            let j = scan_lit_end(s, i);
            proof {
                lemma_lit_end(s@, i as int);
            }
            let run = s.substring_char(i, j);
            match parse_at(s, j, open_at, seen) {
                Ok((ts, sp)) => Ok(
                    prepend_item(PatternItem::Literal(run.to_owned()), open_at.is_some(), ts, sp),
                ),
                Err(e) => Err(e),
            }
        }
    }
}

/// A one-character literal item.
fn lit_of_char(c: char) -> (r: PatternItem)
    ensures
        r@ == SpecPatternItem::Literal(seq![c]),
{
    let mut l = String::new();
    crate::digits::push_char(&mut l, c);
    proof {
        assert(l@ =~= seq![c]);
    }
    PatternItem::Literal(l)
}

/// Puts one freshly read item in front of a parse result and adjusts the
/// styled item range for the mode it was read in.
fn prepend_item(t: PatternItem, in_open: bool, ts: Vec<PatternItem>, sp: Option<(usize, usize)>)
    -> (r: (Vec<PatternItem>, Option<(usize, usize)>))
    requires
        match sp {
            Some((a, b)) => a <= b <= ts@.len(),
            None => true,
        },
        ts@.len() < usize::MAX,
    ensures
        r.0.deep_view() == seq![t@] + ts.deep_view(),
        spec_opt_span(r.1) == (if in_open {
            extend_span(spec_opt_span(sp))
        } else {
            shift_span(spec_opt_span(sp))
        }),
        r.0@.len() == ts@.len() + 1,
        match r.1 {
            Some((a, b)) => a <= b <= r.0@.len(),
            None => true,
        },
{
    let ghost orig = ts.deep_view();
    let ghost t_spec = t@;
    let mut ts = ts;
    ts.insert(0, t);
    let sp2 = match sp {
        Some((a, b)) => if in_open {
            Some((0, b + 1))
        } else {
            Some((a + 1, b + 1))
        },
        None => None,
    };
    proof {
        assert(ts.deep_view() =~= seq![t_spec] + orig);
    }
    (ts, sp2)
}

/// The end of the literal run that starts at `i`.
fn scan_lit_end(s: &str, i: usize) -> (j: usize)
    requires
        i <= s@.len(),
    ensures
        j == lit_end(s@, i as int),
        i <= j <= s@.len(),
{
    let n = s.unicode_len();
    let mut j = i;
    loop
        invariant
            i <= j <= n,
            n == s@.len(),
            forall|k: int| i <= k < j ==> s@[k] != '{' && s@[k] != '}',
        ensures
            i <= j <= n,
            forall|k: int| i <= k < j ==> s@[k] != '{' && s@[k] != '}',
            j == n || s@[j as int] == '{' || s@[j as int] == '}',
        decreases n - j,
    {
        if j == n {
            break ;
        }
        let c = s.get_char(j);
        if c == '{' || c == '}' {
            break ;
        }
        j = j + 1;
    }
    proof {
        lemma_lit_end_is(s@, i as int, j as int);
    }
    j
}

/// The end of the field name that starts at `i`.
fn scan_name_end(s: &str, i: usize) -> (j: usize)
    requires
        i <= s@.len(),
    ensures
        j == name_end(s@, i as int),
        i <= j <= s@.len(),
{
    let n = s.unicode_len();
    let mut j = i;
    loop
        invariant
            i <= j <= n,
            n == s@.len(),
            forall|k: int| i <= k < j ==> spec_is_name_char(s@[k]),
        ensures
            i <= j <= n,
            forall|k: int| i <= k < j ==> spec_is_name_char(s@[k]),
            j == n || !spec_is_name_char(s@[j as int]),
        decreases n - j,
    {
        if j == n {
            break ;
        }
        if !is_name_char(s.get_char(j)) {
            break ;
        }
        j = j + 1;
    }
    proof {
        lemma_name_end_is(s@, i as int, j as int);
    }
    j
}

} // verus!
