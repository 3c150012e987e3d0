//! The directive block placed in front of every source before compilation.
//!
//! The block selects fallback fonts for equations, raw text and body text. It
//! is made of whole lines, so it moves the caller's text down by a fixed number
//! of lines and leaves its columns alone.

use vstd::prelude::*;
use vstd::string::StringExecFns;
use crate::text::{byte_len, ends_line, is_newline, line_breaks, line_count};
use crate::text::{lemma_line_breaks_none, lemma_line_count_concat};

verus! {

/// Fallback font for equations.
pub const MATH_FONT_RULE: &'static str = "#show math.equation: set text(font: \"STIX Two Math\")";

/// Fallback font for raw text and code blocks.
pub const RAW_FONT_RULE: &'static str = "#show raw: set text(font: \"IBM Plex Mono\")";

/// Fallback fonts for body text.
pub const TEXT_FONT_RULE: &'static str =
    "#set text(font: (\"IBM Plex Sans\", \"LXGW WenKai Mono Lite\"))";

/// The number of lines that the block puts in front of the caller's text.
pub const PREAMBLE_LINES: usize = 3;

/// A directive as it stands in the block: on a line of its own.
pub open spec fn directive_line(rule: Seq<char>) -> Seq<char> {
    rule.push('\n')
}

/// The text of the block.
pub open spec fn preamble_text() -> Seq<char> {
    directive_line(MATH_FONT_RULE@) + directive_line(RAW_FONT_RULE@) + directive_line(
        TEXT_FONT_RULE@,
    )
}

/// Whether `rule` is free of line breaks.
pub open spec fn is_single_line(rule: Seq<char>) -> bool {
    forall|i: int| 0 <= i < rule.len() ==> !is_newline(#[trigger] rule[i])
}

/// None of the three directives holds a line break.
pub proof fn lemma_rules_are_single_lines()
    ensures
        is_single_line(MATH_FONT_RULE@),
        is_single_line(RAW_FONT_RULE@),
        is_single_line(TEXT_FONT_RULE@),
{
    reveal_strlit("#show math.equation: set text(font: \"STIX Two Math\")");
    reveal_strlit("#show raw: set text(font: \"IBM Plex Mono\")");
    reveal_strlit("#set text(font: (\"IBM Plex Sans\", \"LXGW WenKai Mono Lite\"))");
}

/// A directive on a line of its own is one line, and ends with its terminator.
pub proof fn lemma_directive_line(rule: Seq<char>)
    requires
        is_single_line(rule),
    ensures
        line_count(directive_line(rule)) == 1,
        ends_line(directive_line(rule), directive_line(rule).len() - 1),
{
    let end = seq!['\n'];
    assert(directive_line(rule) =~= rule + end);
    lemma_line_count_concat(rule, end);
    lemma_line_breaks_none(rule, rule.len() as int, byte_len(rule));
    assert(line_count(end) == 1) by {
        assert(line_breaks(end, 0, byte_len(end)) == 0);
    }
}

/// The block is exactly `PREAMBLE_LINES` lines, the last of them terminated: the
/// caller's text begins on a fresh line.
pub proof fn lemma_preamble_lines()
    ensures
        line_count(preamble_text()) == PREAMBLE_LINES,
        ends_line(preamble_text(), preamble_text().len() - 1),
        preamble_text().last() == '\n',
{
    lemma_rules_are_single_lines();
    let first = directive_line(MATH_FONT_RULE@);
    let second = directive_line(RAW_FONT_RULE@);
    let third = directive_line(TEXT_FONT_RULE@);
    lemma_directive_line(MATH_FONT_RULE@);
    lemma_directive_line(RAW_FONT_RULE@);
    lemma_directive_line(TEXT_FONT_RULE@);
    lemma_line_count_concat(first, second);
    lemma_line_count_concat(first + second, third);
}

/// Puts the block in front of `source`, which follows it unchanged.
pub fn add_fallback_font(source: String) -> (text: String)
    ensures
        text@ == preamble_text() + source@,
{
    let mut text = String::from_str(MATH_FONT_RULE);
    text.append("\n");
    text.append(RAW_FONT_RULE);
    text.append("\n");
    text.append(TEXT_FONT_RULE);
    text.append("\n");
    text.append(source.as_str());
    proof {
        reveal_strlit("\n");
    }
    text
}

} // verus!
