//! The two error families a caller can see: a record's formatting step
//! failed, or a pattern template was rejected when it was compiled. Sink
//! I/O errors are a different family and belong to the sink side.

use vstd::prelude::*;

verus! {

/// A single record's formatting step failed. Formatting is deterministic, so
/// a retry with the same record would fail again.
#[derive(Clone, Copy, PartialEq, Eq, Structural, Debug)]
pub enum FormatError {
    /// The record's instant has no local-calendar representation this
    /// library can render (it falls outside the supported range).
    TimeOutOfRange,
}

/// A pattern template was rejected at compile time, before any record is
/// formatted.
#[derive(Clone, PartialEq, Eq, Debug)]
pub enum TemplateError {
    /// A `{name}` placeholder whose name is not a built-in field. `pos` is
    /// the character position of its opening brace.
    UnknownField { name: String, pos: usize },
    /// A brace construct that is not closed, a lone `}`, or a placeholder
    /// holding a character that no field name contains. `pos` points at the
    /// offending brace.
    Malformed { pos: usize },
    /// A styled span opened inside another styled span.
    NestedStyle { pos: usize },
    /// A second styled span; a compiled pattern reports exactly one style
    /// range.
    SecondStyle { pos: usize },
}

} // verus!
