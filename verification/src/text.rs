//! A model of byte positions, lines and columns in a text.
//!
//! A text is a sequence of characters. The engine addresses it by byte offsets
//! into its UTF-8 encoding and counts lines and columns from zero.

use vstd::prelude::*;

verus! {

/// The number of bytes that `c` takes in UTF-8.
pub open spec fn char_width(c: char) -> int {
    if (c as u32) < 0x80 {
        1
    } else if (c as u32) < 0x800 {
        2
    } else if (c as u32) < 0x1_0000 {
        3
    } else {
        4
    }
}

/// The byte offset at which the character of index `n` starts: the summed
/// widths of the `n` characters before it.
pub open spec fn byte_offset(text: Seq<char>, n: int) -> int
    decreases n,
{
    if n <= 0 {
        0
    } else {
        byte_offset(text, n - 1) + char_width(text[n - 1])
    }
}

/// The length of `text` in bytes.
pub open spec fn byte_len(text: Seq<char>) -> int {
    byte_offset(text, text.len() as int)
}

/// Whether the engine reads `c` as a line break: line feed, vertical tab,
/// form feed, carriage return, next line, line separator, paragraph separator.
pub open spec fn is_newline(c: char) -> bool {
    c == '\n' || c == '\x0B' || c == '\x0C' || c == '\r' || c == '\u{85}' || c == '\u{2028}'
        || c == '\u{2029}'
}

/// Whether a line terminator ends with the character of index `i`. A carriage
/// return directly followed by a line feed forms one terminator with it, which
/// ends with the line feed.
pub open spec fn ends_line(text: Seq<char>, i: int) -> bool {
    &&& 0 <= i < text.len()
    &&& is_newline(text[i])
    &&& !(text[i] == '\r' && i + 1 < text.len() && text[i + 1] == '\n')
}

/// The number of line terminators among the first `n` characters that end at
/// or before the byte offset `byte_idx`.
pub open spec fn line_breaks(text: Seq<char>, n: int, byte_idx: int) -> nat
    decreases n,
{
    if n <= 0 {
        0
    } else if ends_line(text, n - 1) && byte_offset(text, n) <= byte_idx {
        line_breaks(text, n - 1, byte_idx) + 1
    } else {
        line_breaks(text, n - 1, byte_idx)
    }
}

/// The number of line terminators in `text`.
pub open spec fn line_count(text: Seq<char>) -> nat {
    line_breaks(text, text.len() as int, byte_len(text))
}

/// The zero-based index of the line that holds the byte offset `byte_idx`:
/// the number of terminators that end at or before it. There is none past the
/// end of the text.
pub open spec fn line_at(text: Seq<char>, byte_idx: int) -> Option<nat> {
    if 0 <= byte_idx <= byte_len(text) {
        Some(line_breaks(text, text.len() as int, byte_idx))
    } else {
        None
    }
}

/// Whether a character, or the end of the text, starts at `byte_idx`.
pub open spec fn is_boundary(text: Seq<char>, byte_idx: int) -> bool {
    exists|k: int| 0 <= k <= text.len() && #[trigger] byte_offset(text, k) == byte_idx
}

/// The index of the character that starts at the boundary `byte_idx`.
pub open spec fn char_index(text: Seq<char>, byte_idx: int) -> int {
    choose|k: int| 0 <= k <= text.len() && #[trigger] byte_offset(text, k) == byte_idx
}

/// The number of characters between the start of its line and the character
/// of index `k`.
pub open spec fn column_of(text: Seq<char>, k: int) -> nat
    decreases k,
{
    if k <= 0 || ends_line(text, k - 1) {
        0
    } else {
        column_of(text, k - 1) + 1
    }
}

/// The zero-based column of the byte offset `byte_idx`: the number of
/// characters of its line before it. There is none inside a character or past
/// the end of the text.
pub open spec fn column_at(text: Seq<char>, byte_idx: int) -> Option<nat> {
    if is_boundary(text, byte_idx) {
        Some(column_of(text, char_index(text, byte_idx)))
    } else {
        None
    }
}

/// Byte offsets grow with the character index, by at least one per character.
pub proof fn lemma_byte_offset_grows(text: Seq<char>, i: int, j: int)
    requires
        0 <= i <= j,
    ensures
        byte_offset(text, i) + (j - i) <= byte_offset(text, j),
        0 <= byte_offset(text, i),
    decreases j,
{
    if i < j {
        lemma_byte_offset_grows(text, i, j - 1);
    } else if i > 0 {
        lemma_byte_offset_grows(text, i - 1, i - 1);
    }
}

/// At most one character starts at a byte offset.
pub proof fn lemma_char_index_unique(text: Seq<char>, k: int)
    requires
        0 <= k <= text.len(),
    ensures
        is_boundary(text, byte_offset(text, k)),
        char_index(text, byte_offset(text, k)) == k,
{
    let found = char_index(text, byte_offset(text, k));
    if found < k {
        lemma_byte_offset_grows(text, found, k);
    } else if k < found {
        lemma_byte_offset_grows(text, k, found);
    }
}

/// A text put in front of another leaves the byte offsets of its own
/// characters as they were.
pub proof fn lemma_byte_offset_in_front(front: Seq<char>, back: Seq<char>, n: int)
    requires
        0 <= n <= front.len(),
    ensures
        byte_offset(front + back, n) == byte_offset(front, n),
    decreases n,
{
    if n > 0 {
        lemma_byte_offset_in_front(front, back, n - 1);
    }
}

/// A text put in front of another moves the byte offsets of that other's
/// characters by its own length in bytes.
pub proof fn lemma_byte_offset_behind(front: Seq<char>, back: Seq<char>, k: int)
    requires
        0 <= k <= back.len(),
    ensures
        byte_offset(front + back, front.len() + k) == byte_len(front) + byte_offset(back, k),
    decreases k,
{
    if k > 0 {
        lemma_byte_offset_behind(front, back, k - 1);
    } else {
        lemma_byte_offset_in_front(front, back, front.len() as int);
    }
}

/// The length in bytes of two texts joined is the sum of their lengths.
pub proof fn lemma_byte_len_concat(front: Seq<char>, back: Seq<char>)
    ensures
        byte_len(front + back) == byte_len(front) + byte_len(back),
        0 <= byte_len(front),
{
    lemma_byte_offset_behind(front, back, back.len() as int);
    lemma_byte_offset_grows(front, 0, front.len() as int);
}

/// Whether what follows `front` cannot merge into a terminator with its last
/// character: `front` does not end in a carriage return, or `back` does not
/// start with a line feed.
pub open spec fn splits_cleanly(front: Seq<char>, back: Seq<char>) -> bool {
    front.len() == 0 || front.last() != '\r' || back.len() == 0 || back[0] != '\n'
}

/// Every terminator of `front` ends before any byte of `back`.
pub proof fn lemma_line_breaks_in_front(
    front: Seq<char>,
    back: Seq<char>,
    n: int,
    byte_idx: int,
)
    requires
        splits_cleanly(front, back),
        0 <= n <= front.len(),
        byte_len(front) <= byte_idx,
    ensures
        line_breaks(front + back, n, byte_idx) == line_breaks(front, n, byte_len(front)),
    decreases n,
{
    if n > 0 {
        lemma_line_breaks_in_front(front, back, n - 1, byte_idx);
        lemma_byte_offset_in_front(front, back, n);
        lemma_byte_offset_grows(front, n, front.len() as int);
    }
}

/// Behind `front`, the terminators counted are those of `front` and those
/// that `back` has up to the same place.
pub proof fn lemma_line_breaks_behind(
    front: Seq<char>,
    back: Seq<char>,
    k: int,
    offset: int,
)
    requires
        splits_cleanly(front, back),
        0 <= k <= back.len(),
        0 <= offset,
    ensures
        line_breaks(front + back, front.len() + k, byte_len(front) + offset) == line_count(front)
            + line_breaks(back, k, offset),
    decreases k,
{
    if k > 0 {
        lemma_line_breaks_behind(front, back, k - 1, offset);
        lemma_byte_offset_behind(front, back, k);
    } else {
        lemma_line_breaks_in_front(
            front,
            back,
            front.len() as int,
            byte_len(front) + offset,
        );
    }
}

/// A text in front shifts every line of the text behind it by the number of
/// its own line terminators.
pub proof fn lemma_line_at_behind(front: Seq<char>, back: Seq<char>, offset: int)
    requires
        splits_cleanly(front, back),
        0 <= offset <= byte_len(back),
    ensures
        line_at(back, offset) is Some,
        line_at(front + back, byte_len(front) + offset) == Some(
            line_count(front) + line_at(back, offset)->0,
        ),
{
    lemma_byte_len_concat(front, back);
    lemma_line_breaks_behind(front, back, back.len() as int, offset);
}

/// The terminators of two texts joined are those of the one and those of the
/// other.
pub proof fn lemma_line_count_concat(front: Seq<char>, back: Seq<char>)
    requires
        splits_cleanly(front, back),
    ensures
        line_count(front + back) == line_count(front) + line_count(back),
{
    lemma_byte_len_concat(front, back);
    lemma_byte_len_concat(back, Seq::empty());
    lemma_line_breaks_behind(front, back, back.len() as int, byte_len(back));
}

/// A text without line breaks has no terminator.
pub proof fn lemma_line_breaks_none(text: Seq<char>, n: int, byte_idx: int)
    requires
        forall|i: int| 0 <= i < text.len() ==> !is_newline(#[trigger] text[i]),
    ensures
        line_breaks(text, n, byte_idx) == 0,
    decreases n,
{
    if n > 0 {
        lemma_line_breaks_none(text, n - 1, byte_idx);
    }
}

/// Behind a text that ends with a terminator, columns are counted as in the
/// text behind it alone.
pub proof fn lemma_column_of_behind(front: Seq<char>, back: Seq<char>, k: int)
    requires
        ends_line(front, front.len() - 1),
        splits_cleanly(front, back),
        0 <= k <= back.len(),
    ensures
        column_of(front + back, front.len() + k) == column_of(back, k),
    decreases k,
{
    if k > 0 {
        lemma_column_of_behind(front, back, k - 1);
    }
}

/// Behind a text that ends with a terminator, every byte offset has the
/// column that it has in the text behind it alone.
pub proof fn lemma_column_at_behind(front: Seq<char>, back: Seq<char>, offset: int)
    requires
        ends_line(front, front.len() - 1),
        splits_cleanly(front, back),
        0 <= offset,
    ensures
        column_at(front + back, byte_len(front) + offset) == column_at(back, offset),
{
    let joined = front + back;
    let place = byte_len(front) + offset;
    if is_boundary(back, offset) {
        let k = char_index(back, offset);
        lemma_byte_offset_behind(front, back, k);
        lemma_char_index_unique(joined, front.len() + k);
        lemma_column_of_behind(front, back, k);
    } else if is_boundary(joined, place) {
        let j = char_index(joined, place);
        if j < front.len() {
            lemma_byte_offset_in_front(front, back, j);
            lemma_byte_offset_grows(front, j, front.len() as int);
        } else {
            lemma_byte_offset_behind(front, back, j - front.len());
        }
    }
}

} // verus!
