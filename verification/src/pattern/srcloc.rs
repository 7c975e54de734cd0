//! The pattern items that render a record's source location, each writing
//! nothing when the record carries none.

use vstd::prelude::*;
use crate::StringBuf;
use vstd::string::StringExecFns;
use crate::digits::{push_char, push_dec_u64};
use crate::error::FormatError;
use crate::formatter::cache_td;
use crate::local_time_cacher::{LocalTimeCacher, TimeDate};
use crate::pattern_formatter::{FieldKind, Pattern, PatternContext};
use crate::record::Record;

verus! {

/// A pattern that writes the source file and line of a log record into the
/// output. Example: `path/to/main.rs:30`.
#[derive(Clone, Copy, Default, PartialEq, Eq, Structural, Debug)]
pub struct Source {}

impl Pattern for Source {
    open spec fn uses_time(&self) -> bool {
        false
    }

    open spec fn spec_rendered(&self, record: &Record, td: TimeDate) -> Seq<char> {
        crate::pattern_formatter::spec_render_field(FieldKind::Source, record, td)
    }

    fn format(
        &self,
        record: &Record,
        dest: &mut StringBuf,
        ctx: &mut PatternContext,
        cacher: &mut LocalTimeCacher,
    ) -> (r: Result<(), FormatError>) {
        if let Some(loc) = record.source_location() {
            dest.append(loc.file());
            push_char(dest, ':');
            push_dec_u64(dest, loc.line() as u64);
        }
        proof {
            assert(dest@ =~= old(dest)@ + self.spec_rendered(
                record,
                cache_td(*cacher, record.time),
            ));
        }
        Ok(())
    }
}

/// A pattern that writes the source file basename into the output. Example:
/// `main.rs`.
#[derive(Clone, Copy, Default, PartialEq, Eq, Structural, Debug)]
pub struct SourceFilename {}

impl Pattern for SourceFilename {
    open spec fn uses_time(&self) -> bool {
        false
    }

    open spec fn spec_rendered(&self, record: &Record, td: TimeDate) -> Seq<char> {
        crate::pattern_formatter::spec_render_field(FieldKind::SourceFilename, record, td)
    }

    fn format(
        &self,
        record: &Record,
        dest: &mut StringBuf,
        ctx: &mut PatternContext,
        cacher: &mut LocalTimeCacher,
    ) -> (r: Result<(), FormatError>) {
        if let Some(loc) = record.source_location() {
            dest.append(loc.file_name());
        }
        proof {
            assert(dest@ =~= old(dest)@ + self.spec_rendered(
                record,
                cache_td(*cacher, record.time),
            ));
        }
        Ok(())
    }
}

/// A pattern that writes the source file path into the output. Example:
/// `src/main.rs`.
#[derive(Clone, Copy, Default, PartialEq, Eq, Structural, Debug)]
pub struct SourceFile {}

impl Pattern for SourceFile {
    open spec fn uses_time(&self) -> bool {
        false
    }

    open spec fn spec_rendered(&self, record: &Record, td: TimeDate) -> Seq<char> {
        crate::pattern_formatter::spec_render_field(FieldKind::SourceFile, record, td)
    }

    fn format(
        &self,
        record: &Record,
        dest: &mut StringBuf,
        ctx: &mut PatternContext,
        cacher: &mut LocalTimeCacher,
    ) -> (r: Result<(), FormatError>) {
        if let Some(loc) = record.source_location() {
            dest.append(loc.file());
        }
        proof {
            assert(dest@ =~= old(dest)@ + self.spec_rendered(
                record,
                cache_td(*cacher, record.time),
            ));
        }
        Ok(())
    }
}

/// A pattern that writes the source line into the output. Example: `20`.
#[derive(Clone, Copy, Default, PartialEq, Eq, Structural, Debug)]
pub struct SourceLine {}

impl Pattern for SourceLine {
    open spec fn uses_time(&self) -> bool {
        false
    }

    open spec fn spec_rendered(&self, record: &Record, td: TimeDate) -> Seq<char> {
        crate::pattern_formatter::spec_render_field(FieldKind::SourceLine, record, td)
    }

    fn format(
        &self,
        record: &Record,
        dest: &mut StringBuf,
        ctx: &mut PatternContext,
        cacher: &mut LocalTimeCacher,
    ) -> (r: Result<(), FormatError>) {
        if let Some(loc) = record.source_location() {
            push_dec_u64(dest, loc.line() as u64);
        }
        proof {
            assert(dest@ =~= old(dest)@ + self.spec_rendered(
                record,
                cache_td(*cacher, record.time),
            ));
        }
        Ok(())
    }
}

/// A pattern that writes the source column into the output. Example: `20`.
#[derive(Clone, Copy, Default, PartialEq, Eq, Structural, Debug)]
pub struct SourceColumn {}

impl Pattern for SourceColumn {
    open spec fn uses_time(&self) -> bool {
        false
    }

    open spec fn spec_rendered(&self, record: &Record, td: TimeDate) -> Seq<char> {
        crate::pattern_formatter::spec_render_field(FieldKind::SourceColumn, record, td)
    }

    fn format(
        &self,
        record: &Record,
        dest: &mut StringBuf,
        ctx: &mut PatternContext,
        cacher: &mut LocalTimeCacher,
    ) -> (r: Result<(), FormatError>) {
        if let Some(loc) = record.source_location() {
            push_dec_u64(dest, loc.column() as u64);
        }
        proof {
            assert(dest@ =~= old(dest)@ + self.spec_rendered(
                record,
                cache_td(*cacher, record.time),
            ));
        }
        Ok(())
    }
}

/// A pattern that writes the source module path into the output. Example:
/// `mod::path`.
#[derive(Clone, Copy, Default, PartialEq, Eq, Structural, Debug)]
pub struct SourceModulePath {}

impl Pattern for SourceModulePath {
    open spec fn uses_time(&self) -> bool {
        false
    }

    open spec fn spec_rendered(&self, record: &Record, td: TimeDate) -> Seq<char> {
        crate::pattern_formatter::spec_render_field(FieldKind::SourceModulePath, record, td)
    }

    fn format(
        &self,
        record: &Record,
        dest: &mut StringBuf,
        ctx: &mut PatternContext,
        cacher: &mut LocalTimeCacher,
    ) -> (r: Result<(), FormatError>) {
        if let Some(loc) = record.source_location() {
            dest.append(loc.module());
        }
        proof {
            assert(dest@ =~= old(dest)@ + self.spec_rendered(
                record,
                cache_td(*cacher, record.time),
            ));
        }
        Ok(())
    }
}

} // verus!
