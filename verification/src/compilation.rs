//! The outcome of a compilation: the document, or every diagnostic of the
//! failure as a record for the host.

use vstd::prelude::*;
use vstd::string::StringExecFns;
use typst::model::Document;
use crate::decimal::{append_decimal, decimal};
use crate::diagnostic::{record_in, DiagnosticRecord, EngineDiagnostic};
use crate::diagnostic::{SourceDiagnosticResult, SourceDiagnosticResultSeverity};
use crate::source_map::SourceMap;

verus! {

/// The margin around and between the pages of a vector image, in points.
/// The renderer is handed this number.
pub const PAGE_MARGIN_PT: u32 = 2;

/// A failed compilation: the records of its diagnostics, in the order in
/// which the engine reported them.
#[derive(Debug)]
pub struct TypstCompilationError {
    source_diagnostic_results: Vec<SourceDiagnosticResult>,
}

/// The content of each record of `results`, in the same order.
pub open spec fn records(results: Seq<SourceDiagnosticResult>) -> Seq<DiagnosticRecord> {
    Seq::new(results.len(), |i: int| results[i]@)
}

impl View for TypstCompilationError {
    type V = Seq<DiagnosticRecord>;

    closed spec fn view(&self) -> Seq<DiagnosticRecord> {
        records(self.source_diagnostic_results@)
    }
}

/// The name of a severity in a summary.
pub open spec fn severity_label(severity: SourceDiagnosticResultSeverity) -> Seq<char> {
    match severity {
        SourceDiagnosticResultSeverity::Error => "Error"@,
        SourceDiagnosticResultSeverity::Warning => "Warning"@,
    }
}

/// The line of a summary for one record: its severity, its message and where
/// it starts.
pub open spec fn summary_line(record: DiagnosticRecord) -> Seq<char> {
    "- ["@ + severity_label(record.severity) + "] "@ + record.message + ". Line: "@ + decimal(
        record.line_start,
    ) + ", Column: "@ + decimal(record.column_start) + "."@
}

/// The summary of `records`: one line for each, in their order, with a line
/// feed between two lines.
pub open spec fn summary(records: Seq<DiagnosticRecord>) -> Seq<char>
    decreases records.len(),
{
    if records.len() == 0 {
        Seq::empty()
    } else if records.len() == 1 {
        summary_line(records[0])
    } else {
        summary(records.drop_last()) + seq!['\n'] + summary_line(records.last())
    }
}

/// The records for `diagnostics` in the compiled file `map`: the record of
/// each, in the same order.
pub open spec fn records_in(map: SourceMap, diagnostics: Seq<EngineDiagnostic>) -> Seq<
    DiagnosticRecord,
> {
    Seq::new(diagnostics.len(), |i: int| record_in(map, diagnostics[i]))
}

/// Writes the summary line of `result` at the end of `out`.
fn append_summary_line(out: &mut String, result: &SourceDiagnosticResult)
    ensures
        final(out)@ == old(out)@ + summary_line(result@),
{
    out.append("- [");
    match result.severity {
        SourceDiagnosticResultSeverity::Error => out.append("Error"),
        SourceDiagnosticResultSeverity::Warning => out.append("Warning"),
    }
    out.append("] ");
    out.append(result.message.as_str());
    out.append(". Line: ");
    append_decimal(out, result.line_start);
    out.append(", Column: ");
    append_decimal(out, result.column_start);
    out.append(".");
}

impl TypstCompilationError {
    /// The summary of the failure.
    pub fn message(&self) -> (message: String)
        ensures
            message@ == summary(self@),
    {
        let mut message = String::new();
        let count = self.source_diagnostic_results.len();
        let mut i: usize = 0;
        while i < count
            invariant
                count == self.source_diagnostic_results.len(),
                0 <= i <= count,
                message@ == summary(self@.take(i as int)),
            decreases count - i,
        {
            if i > 0 {
                message.append("\n");
            }
            append_summary_line(&mut message, &self.source_diagnostic_results[i]);
            proof {
                reveal_strlit("\n");
                assert(self@.take(i + 1).drop_last() =~= self@.take(i as int));
            }
            i += 1;
        }
        assert(self@.take(count as int) =~= self@);
        message
    }

    /// The records of the failure, in the engine's order.
    pub fn diagnostics(&self) -> (diagnostics: Vec<SourceDiagnosticResult>)
        ensures
            records(diagnostics@) == self@,
    {
        let mut diagnostics: Vec<SourceDiagnosticResult> = Vec::new();
        let count = self.source_diagnostic_results.len();
        let mut i: usize = 0;
        while i < count
            invariant
                count == self.source_diagnostic_results.len(),
                0 <= i <= count,
                diagnostics@.len() == i,
                records(diagnostics@) == self@.take(i as int),
            decreases count - i,
        {
            let ghost before = diagnostics@;
            diagnostics.push(self.source_diagnostic_results[i].clone());
            assert forall|j: int| 0 <= j <= i implies records(diagnostics@)[j] == self@[j] by {
                if j < i {
                    assert(records(before)[j] == self@.take(i as int)[j]);
                }
            }
            i += 1;
        }
        diagnostics
    }
}

/// The failure that `diagnostics` amount to for the host: the record of each,
/// in the same order.
fn compilation_error(source: &SourceMap, diagnostics: &Vec<EngineDiagnostic>) -> (error:
    TypstCompilationError)
    ensures
        error@ == records_in(*source, diagnostics@),
{
    let mut results: Vec<SourceDiagnosticResult> = Vec::new();
    let count = diagnostics.len();
    let mut i: usize = 0;
    while i < count
        invariant
            count == diagnostics.len(),
            0 <= i <= count,
            results@.len() == i,
            forall|j: int|
                0 <= j < i ==> (#[trigger] results@[j])@ == record_in(*source, diagnostics@[j]),
        decreases count - i,
    {
        let result = SourceDiagnosticResult::new(source, &diagnostics[i]);
        results.push(result);
        i += 1;
    }
    TypstCompilationError { source_diagnostic_results: results }
}

/// Decides what a compilation of `source` came to. `outcome` is what the
/// engine returned: the document, or the diagnostics of the failure. The
/// document is passed on as it is; the diagnostics become a
/// `TypstCompilationError` that holds the record of each of them, in the
/// engine's order. A renderer is handed the document after this.
pub fn get_rendered_document(source: &SourceMap, outcome: Result<Document, Vec<EngineDiagnostic>>) -> (result:
    Result<Document, TypstCompilationError>)
    ensures
        match outcome {
            Ok(document) => result == Ok::<Document, TypstCompilationError>(document),
            Err(diagnostics) => result is Err && result->Err_0@ == records_in(
                *source,
                diagnostics@,
            ),
        },
{
    match outcome {
        Ok(document) => Ok(document),
        Err(diagnostics) => Err(compilation_error(source, &diagnostics)),
    }
}

/// The engine's order is kept. Where `error` is the failure for `diagnostics`
/// and `listed` is what `diagnostics()` returns for it, `listed` holds one
/// record for each diagnostic, and the record at each place is the one for
/// the engine's diagnostic at the same place.
pub proof fn lemma_order_is_kept(
    map: SourceMap,
    diagnostics: Seq<EngineDiagnostic>,
    error: TypstCompilationError,
    listed: Seq<SourceDiagnosticResult>,
)
    requires
        error@ == records_in(map, diagnostics),
        records(listed) == error@,
    ensures
        listed.len() == diagnostics.len(),
        forall|i: int|
            0 <= i < diagnostics.len() ==> (#[trigger] listed[i])@ == record_in(
                map,
                diagnostics[i],
            ),
{
    assert(records_in(map, diagnostics).len() == diagnostics.len());
    assert forall|i: int| 0 <= i < diagnostics.len() implies (#[trigger] listed[i])@ == record_in(
        map,
        diagnostics[i],
    ) by {
        assert(records_in(map, diagnostics)[i] == record_in(map, diagnostics[i]));
    }
}

} // verus!
