//! The engine's own types, and every call that the library makes into the
//! engine and into the percent-decoder.
//!
//! Nothing in this file is proved. Each function below states what the called
//! function is taken to do; the rest of the library is verified against these
//! statements.

use vstd::prelude::*;
use std::string::FromUtf8Error;
use typst::model::Document;
use typst::syntax::{Source, Span};
use crate::text::{column_at, line_at};

verus! {

/// `typst::syntax::Source`: a source file as the engine holds it, its text
/// together with a table of its lines and its syntax tree.
#[verifier::external_type_specification]
#[verifier::external_body]
pub struct ExSource(Source);

/// `typst::syntax::Span`: the mark by which the engine finds a node of a
/// source file again.
#[verifier::external_type_specification]
#[verifier::external_body]
pub struct ExSpan(Span);

/// `typst::model::Document`: a document that the engine has laid out.
#[verifier::external_type_specification]
#[verifier::external_body]
pub struct ExDocument(Document);

/// `std::string::FromUtf8Error`: why bytes could not be read as UTF-8.
#[verifier::external_type_specification]
#[verifier::external_body]
pub struct ExFromUtf8Error(FromUtf8Error);

/// The characters that a source file holds, in their order.
pub uninterp spec fn source_text(source: Source) -> Seq<char>;

/// Whether the line table of a source file is the one that the engine makes
/// for its text. It is for a file that was made from its text and never
/// edited; an edit patches the table and may leave it behind the text.
pub uninterp spec fn lines_are_current(source: Source) -> bool;

/// What `Source::range` finds for `span` in `source`: the byte range of the
/// node that `span` marks, or nothing where it marks no node of `source`.
pub uninterp spec fn resolved_range(source: Source, span: Span) -> Option<(usize, usize)>;

/// What `urlencoding::decode` makes of `encoded`: the decoded text, or nothing
/// where the decoded bytes are not valid UTF-8.
pub uninterp spec fn percent_decoded(encoded: Seq<char>) -> Option<Seq<char>>;

/// Whether `encoded` holds no percent sign, and so no percent escape.
pub open spec fn has_no_escape(encoded: Seq<char>) -> bool {
    !encoded.contains('%')
}

/// `Source::detached`: a source file of its own, without a path, that holds
/// `text`. The engine parses the text and makes its line table from it.
/// Numbering the nodes cannot run out: the engine has more numbers than a text
/// in memory has nodes. The parser descends once for each level of nesting in
/// the text and is taken to have the stack for it, as it must when the same
/// text is compiled.
#[verifier::external_body]
pub(crate) fn detached_source(text: String) -> (source: Source)
    ensures
        source_text(source) == text@,
        lines_are_current(source),
{
    Source::detached(text)
}

/// `Source::range`: the byte range of the node that `span` marks, or nothing
/// where `span` marks no node of `source`. The range depends on the file and
/// the span alone.
#[verifier::external_body]
pub(crate) fn span_range(source: &Source, span: Span) -> (range: Option<(usize, usize)>)
    ensures
        range == resolved_range(*source, span),
{
    match source.range(span) {
        Some(range) => Some((range.start, range.end)),
        None => None,
    }
}

/// `Source::byte_to_line`: the index of the line that holds the byte offset
/// `byte_idx`, counted from zero, or nothing past the end of the text. The
/// engine starts a new line behind each of its line terminators, so for a
/// file whose table is current the index is the number of terminators that
/// end at or before `byte_idx`.
#[verifier::external_body]
pub(crate) fn byte_to_line(source: &Source, byte_idx: usize) -> (line: Option<usize>)
    requires
        lines_are_current(*source),
    ensures
        match line {
            Some(index) => line_at(source_text(*source), byte_idx as int) == Some(index as nat),
            None => line_at(source_text(*source), byte_idx as int) is None,
        },
{
    source.byte_to_line(byte_idx)
}

/// `Source::byte_to_column`: the number of characters between the start of
/// the line and the byte offset `byte_idx`, or nothing where `byte_idx` lies
/// inside a character or past the end of the text. Stated for a file whose
/// table is current.
#[verifier::external_body]
pub(crate) fn byte_to_column(source: &Source, byte_idx: usize) -> (column: Option<usize>)
    requires
        lines_are_current(*source),
    ensures
        match column {
            Some(index) => column_at(source_text(*source), byte_idx as int) == Some(index as nat),
            None => column_at(source_text(*source), byte_idx as int) is None,
        },
{
    source.byte_to_column(byte_idx)
}

/// `urlencoding::decode`: `encoded` with its percent escapes replaced, or the
/// error of the conversion where the result is not valid UTF-8. A text
/// without a percent sign comes back as it is.
#[verifier::external_body]
pub(crate) fn percent_decode(encoded: &str) -> (decoded: Result<String, FromUtf8Error>)
    ensures
        match decoded {
            Ok(text) => percent_decoded(encoded@) == Some(text@),
            Err(_) => percent_decoded(encoded@) is None,
        },
        match decoded {
            Ok(text) => has_no_escape(encoded@) ==> text@ == encoded@,
            Err(_) => !has_no_escape(encoded@),
        },
{
    match urlencoding::decode(encoded) {
        Ok(text) => Ok(text.into_owned()),
        Err(error) => Err(error),
    }
}

} // verus!
