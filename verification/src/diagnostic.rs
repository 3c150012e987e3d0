//! Diagnostics: what the engine reports, and the record handed to the host.
//!
//! The engine speaks of byte ranges in the text that it compiled, which begins
//! with the preamble. A record speaks of lines counted from one in the
//! caller's own text, and of columns counted from zero.

use vstd::prelude::*;
use typst::syntax::Span;
use crate::preamble::{lemma_preamble_lines, preamble_text, PREAMBLE_LINES};
use crate::source_map::SourceMap;
use crate::text::{byte_len, column_at, line_at};
use crate::text::{lemma_column_at_behind, lemma_line_at_behind};

verus! {

/// How grave a record is.
#[derive(Clone, Copy, Debug, PartialEq, Eq, Structural)]
pub enum SourceDiagnosticResultSeverity {
    Error,
    Warning,
}

/// How grave the engine holds a diagnostic to be.
#[derive(Clone, Copy, Debug, PartialEq, Eq, Structural)]
pub enum EngineSeverity {
    /// A fatal error.
    Error,
    /// A warning that does not stop compilation.
    Warning,
}

/// A diagnostic as the engine reports it.
#[derive(Debug)]
pub struct EngineDiagnostic {
    pub severity: EngineSeverity,
    /// The mark of the node that the diagnostic is about.
    pub span: Span,
    pub message: String,
}

/// A diagnostic as the host receives it.
#[derive(Debug)]
pub struct SourceDiagnosticResult {
    pub message: String,
    pub severity: SourceDiagnosticResultSeverity,
    pub line_start: u64,
    pub column_start: u64,
    pub line_end: u64,
    pub column_end: u64,
}

/// The mathematical content of a `SourceDiagnosticResult`.
pub struct DiagnosticRecord {
    pub message: Seq<char>,
    pub severity: SourceDiagnosticResultSeverity,
    pub line_start: nat,
    pub column_start: nat,
    pub line_end: nat,
    pub column_end: nat,
}

impl View for SourceDiagnosticResult {
    type V = DiagnosticRecord;

    open spec fn view(&self) -> DiagnosticRecord {
        DiagnosticRecord {
            message: self.message@,
            severity: self.severity,
            line_start: self.line_start as nat,
            column_start: self.column_start as nat,
            line_end: self.line_end as nat,
            column_end: self.column_end as nat,
        }
    }
}

/// The severity of a record for a severity of the engine.
pub open spec fn record_severity(severity: EngineSeverity) -> SourceDiagnosticResultSeverity {
    match severity {
        EngineSeverity::Error => SourceDiagnosticResultSeverity::Error,
        EngineSeverity::Warning => SourceDiagnosticResultSeverity::Warning,
    }
}

/// The byte range that a diagnostic is placed at: the one that its span
/// resolved to, or the empty range at the start of the text.
pub open spec fn placed_range(range: Option<(usize, usize)>) -> (int, int) {
    match range {
        Some(found) => (found.0 as int, found.1 as int),
        None => (0, 0),
    }
}

/// The line of a record for a line index of the engine: the preamble's lines
/// are taken off and counting starts at one. A position that has no line, or
/// one inside the preamble, is put on line one.
pub open spec fn record_line(line: Option<nat>) -> nat {
    let index = match line {
        Some(found) => found,
        None => PREAMBLE_LINES as nat,
    };
    if index >= PREAMBLE_LINES {
        (index - PREAMBLE_LINES + 1) as nat
    } else {
        1
    }
}

/// The column of a record for a column of the engine: the same, or zero for a
/// position that has no column.
pub open spec fn record_column(column: Option<nat>) -> nat {
    match column {
        Some(found) => found,
        None => 0,
    }
}

/// An index that the engine gave, as a number.
pub open spec fn index_of(found: Option<usize>) -> Option<nat> {
    match found {
        Some(index) => Some(index as nat),
        None => None,
    }
}

/// The record for `diagnostic` where the engine found the given lines and
/// columns for the start and the end of its range.
pub open spec fn record_from(
    diagnostic: EngineDiagnostic,
    line_start: Option<nat>,
    column_start: Option<nat>,
    line_end: Option<nat>,
    column_end: Option<nat>,
) -> DiagnosticRecord {
    DiagnosticRecord {
        message: diagnostic.message@,
        severity: record_severity(diagnostic.severity),
        line_start: record_line(line_start),
        column_start: record_column(column_start),
        line_end: record_line(line_end),
        column_end: record_column(column_end),
    }
}

/// The record for `diagnostic` in the compiled text `text`, where the span of
/// the diagnostic resolved to `range`.
pub open spec fn record_at(
    text: Seq<char>,
    diagnostic: EngineDiagnostic,
    range: Option<(usize, usize)>,
) -> DiagnosticRecord {
    let (start, end) = placed_range(range);
    record_from(
        diagnostic,
        line_at(text, start),
        column_at(text, start),
        line_at(text, end),
        column_at(text, end),
    )
}

/// The record for `diagnostic` in the compiled file `map`: the one for the
/// range that the span of the diagnostic resolves to there.
pub open spec fn record_in(map: SourceMap, diagnostic: EngineDiagnostic) -> DiagnosticRecord {
    record_at(map@, diagnostic, map.range_of(diagnostic.span))
}

/// The line of a record for the line index that the engine gave.
fn line_number(line: Option<usize>) -> (number: u64)
    ensures
        number == record_line(index_of(line)),
{
    let index: usize = match line {
        Some(found) => found,
        None => PREAMBLE_LINES,
    };
    if index >= PREAMBLE_LINES {
        (index - PREAMBLE_LINES) as u64 + 1
    } else {
        1
    }
}

/// The column of a record for the column that the engine gave.
fn column_number(column: Option<usize>) -> (number: u64)
    ensures
        number == record_column(index_of(column)),
{
    match column {
        Some(found) => found as u64,
        None => 0,
    }
}

impl SourceDiagnosticResult {
    /// The record for `e`, a diagnostic of the compilation of `source`: the
    /// span of `e` is resolved in `source`, and the record is the one for the
    /// range found.
    pub fn new(source: &SourceMap, e: &EngineDiagnostic) -> (result: Self)
        ensures
            result@ == record_in(*source, *e),
    {
        let range = source.range(e.span);
        Self::at_range(source, e, range)
    }

    /// The record for `e` where its span resolved to `range` in `source`: the
    /// line and the column of both ends are looked up there.
    pub fn at_range(source: &SourceMap, e: &EngineDiagnostic, range: Option<(usize, usize)>) -> (result:
        Self)
        ensures
            result@ == record_at(source@, *e, range),
    {
        let (start, end): (usize, usize) = match range {
            Some(found) => found,
            None => (0, 0),
        };
        let line_start = source.line(start);
        let column_start = source.column(start);
        let line_end = source.line(end);
        let column_end = source.column(end);
        Self::from_positions(e, line_start, column_start, line_end, column_end)
    }

    /// The record for `e` where the engine gave these lines and columns,
    /// counted from zero in the compiled text, for the start and the end of
    /// its range.
    pub fn from_positions(
        e: &EngineDiagnostic,
        line_start: Option<usize>,
        column_start: Option<usize>,
        line_end: Option<usize>,
        column_end: Option<usize>,
    ) -> (result: Self)
        ensures
            result@ == record_from(
                *e,
                index_of(line_start),
                index_of(column_start),
                index_of(line_end),
                index_of(column_end),
            ),
    {
        Self {
            message: e.message.clone(),
            severity: match e.severity {
                EngineSeverity::Error => SourceDiagnosticResultSeverity::Error,
                EngineSeverity::Warning => SourceDiagnosticResultSeverity::Warning,
            },
            line_start: line_number(line_start),
            column_start: column_number(column_start),
            line_end: line_number(line_end),
            column_end: column_number(column_end),
        }
    }

    pub fn message(&self) -> (message: String)
        ensures
            message@ == self@.message,
    {
        self.message.clone()
    }

    pub fn severity(&self) -> (severity: SourceDiagnosticResultSeverity)
        ensures
            severity == self@.severity,
    {
        self.severity
    }

    pub fn line_start(&self) -> (line: u64)
        ensures
            line == self@.line_start,
    {
        self.line_start
    }

    pub fn column_start(&self) -> (column: u64)
        ensures
            column == self@.column_start,
    {
        self.column_start
    }

    pub fn line_end(&self) -> (line: u64)
        ensures
            line == self@.line_end,
    {
        self.line_end
    }

    pub fn column_end(&self) -> (column: u64)
        ensures
            column == self@.column_end,
    {
        self.column_end
    }
}

impl Clone for SourceDiagnosticResult {
    fn clone(&self) -> (copy: Self)
        ensures
            copy@ == self@,
    {
        Self {
            message: self.message.clone(),
            severity: self.severity,
            line_start: self.line_start,
            column_start: self.column_start,
            line_end: self.line_end,
            column_end: self.column_end,
        }
    }
}

/// Remapping is the inverse of the preamble's shift. A byte offset `offset`
/// of the caller's text `user` lies at `byte_len(preamble_text()) + offset` in
/// the compiled text; the record puts it on the line that it has in `user`
/// alone, counted from one, and in the column that it has there.
pub proof fn lemma_remap_inverts_preamble(user: Seq<char>, offset: int)
    requires
        0 <= offset <= byte_len(user),
    ensures
        line_at(user, offset) is Some,
        record_line(line_at(preamble_text() + user, byte_len(preamble_text()) + offset))
            == line_at(user, offset)->0 + 1,
        record_column(column_at(preamble_text() + user, byte_len(preamble_text()) + offset))
            == record_column(column_at(user, offset)),
{
    lemma_preamble_lines();
    lemma_line_at_behind(preamble_text(), user, offset);
    lemma_column_at_behind(preamble_text(), user, offset);
}

/// A diagnostic whose range lies in the caller's text gets the lines and
/// columns that the range has in that text alone: the preamble cancels out.
pub proof fn lemma_record_in_user_text(
    user: Seq<char>,
    diagnostic: EngineDiagnostic,
    range: (usize, usize),
    start: int,
    end: int,
)
    requires
        0 <= start <= byte_len(user),
        0 <= end <= byte_len(user),
        range.0 == byte_len(preamble_text()) + start,
        range.1 == byte_len(preamble_text()) + end,
    ensures
        ({
            let record = record_at(preamble_text() + user, diagnostic, Some(range));
            &&& line_at(user, start) is Some
            &&& line_at(user, end) is Some
            &&& record.line_start == line_at(user, start)->0 + 1
            &&& record.line_end == line_at(user, end)->0 + 1
            &&& record.column_start == record_column(column_at(user, start))
            &&& record.column_end == record_column(column_at(user, end))
        }),
{
    lemma_remap_inverts_preamble(user, start);
    lemma_remap_inverts_preamble(user, end);
}

} // verus!
