//! The text that the engine compiles, held as the engine holds it.

use vstd::prelude::*;
use typst::syntax::{Source, Span};
use crate::engine::{byte_to_column, byte_to_line, detached_source, span_range};
use crate::engine::{lines_are_current, resolved_range, source_text};
use crate::preamble::{add_fallback_font, preamble_text};
use crate::text::{column_at, line_at};

verus! {

/// A source file of the engine whose line table is current: it was made from
/// its text here and is never edited. Positions are looked up in it.
pub struct SourceMap {
    source: Source,
}

impl View for SourceMap {
    type V = Seq<char>;

    /// The text of the file.
    closed spec fn view(&self) -> Seq<char> {
        source_text(self.source)
    }
}

impl SourceMap {
    #[verifier::type_invariant]
    spec fn table_is_current(self) -> bool {
        lines_are_current(self.source)
    }

    /// The byte range that `span` resolves to in this file, or nothing where
    /// it marks no node of it.
    pub closed spec fn range_of(self, span: Span) -> Option<(usize, usize)> {
        resolved_range(self.source, span)
    }

    /// The file that holds `text`.
    pub fn new(text: String) -> (map: Self)
        ensures
            map@ == text@,
    {
        SourceMap { source: detached_source(text) }
    }

    /// The file that the engine compiles for the caller's text `source`: the
    /// preamble, then `source`.
    pub fn compiled(source: String) -> (map: Self)
        ensures
            map@ == preamble_text() + source@,
    {
        Self::new(add_fallback_font(source))
    }

    /// The file itself, for the engine to compile.
    pub fn source(&self) -> (source: &Source)
        ensures
            source_text(*source) == self@,
            lines_are_current(*source),
            forall|span: Span| resolved_range(*source, span) == self.range_of(span),
    {
        proof {
            use_type_invariant(self);
        }
        &self.source
    }

    /// The byte range of the node that `span` marks.
    pub fn range(&self, span: Span) -> (range: Option<(usize, usize)>)
        ensures
            range == self.range_of(span),
    {
        span_range(&self.source, span)
    }

    /// The line that holds the byte offset `byte_idx`, counted from zero.
    pub fn line(&self, byte_idx: usize) -> (line: Option<usize>)
        ensures
            match line {
                Some(index) => line_at(self@, byte_idx as int) == Some(index as nat),
                None => line_at(self@, byte_idx as int) is None,
            },
    {
        proof {
            use_type_invariant(self);
        }
        byte_to_line(&self.source, byte_idx)
    }

    /// The column of the byte offset `byte_idx`, counted from zero.
    pub fn column(&self, byte_idx: usize) -> (column: Option<usize>)
        ensures
            match column {
                Some(index) => column_at(self@, byte_idx as int) == Some(index as nat),
                None => column_at(self@, byte_idx as int) is None,
            },
    {
        proof {
            use_type_invariant(self);
        }
        byte_to_column(&self.source, byte_idx)
    }
}

} // verus!
