//! The mathematical model of lines and of byte offsets in a text.
//!
//! A text is a sequence of characters. A line ends with a line break and the
//! next line starts directly after it; the last line ends with the text.
//! Stored in UTF-8, a character takes one to four bytes, so an offset in
//! characters and an offset in bytes differ.

use vstd::prelude::*;
use vstd::utf8::{encode_scalar, encode_utf8};

verus! {

/// Whether `c` is a character that can end a line: line feed, vertical tab,
/// form feed, carriage return, next line, line separator or paragraph
/// separator.
pub open spec fn is_break_char(c: char) -> bool {
    c == '\n' || c == '\u{0B}' || c == '\u{0C}' || c == '\r' || c == '\u{85}' || c == '\u{2028}'
        || c == '\u{2029}'
}

/// Whether a line ends with the character at offset `i`. A carriage return
/// directly followed by a line feed does not end a line by itself: the pair
/// is one line break, which ends at the line feed.
pub open spec fn ends_line_at(text: Seq<char>, i: int) -> bool {
    &&& 0 <= i < text.len()
    &&& is_break_char(text[i])
    &&& !(text[i] == '\r' && i + 1 < text.len() && text[i + 1] == '\n')
}

/// The index of the line that holds offset `n`: the number of line breaks
/// that end before `n`.
pub open spec fn line_of(text: Seq<char>, n: int) -> nat
    decreases n,
{
    if n <= 0 {
        0
    } else {
        line_of(text, n - 1) + if ends_line_at(text, n - 1) { 1nat } else { 0nat }
    }
}

/// The number of lines of `text`: one more than its line breaks.
pub open spec fn line_count(text: Seq<char>) -> nat {
    line_of(text, text.len() as int) + 1
}

/// The line that an index stands for: the line of that index while the
/// text has one, else the last line of the text.
pub open spec fn clamped_line(text: Seq<char>, line: nat) -> nat {
    if line < line_count(text) {
        line
    } else {
        (line_count(text) - 1) as nat
    }
}

/// The number of offsets below `n` that lie on a line before `line`.
pub open spec fn chars_before_line(text: Seq<char>, line: nat, n: int) -> nat
    decreases n,
{
    if n <= 0 {
        0
    } else {
        chars_before_line(text, line, n - 1) + if line_of(text, n - 1) < line { 1nat } else { 0nat }
    }
}

/// The offset at which line `line` starts: the number of characters on the
/// lines before it. For a line past the last one this is the length of the
/// text.
pub open spec fn line_start(text: Seq<char>, line: nat) -> nat {
    chars_before_line(text, line, text.len() as int)
}

/// Later offsets lie on later lines.
pub proof fn lemma_line_of_monotonic(text: Seq<char>, i: int, j: int)
    requires
        i <= j,
    ensures
        line_of(text, i) <= line_of(text, j),
    decreases j - i,
{
    if i < j {
        lemma_line_of_monotonic(text, i, j - 1);
    }
}

/// There are at most as many line breaks before an offset as characters.
pub proof fn lemma_line_of_bound(text: Seq<char>, n: int)
    ensures
        line_of(text, n) <= if n <= 0 { 0 } else { n },
        line_of(text, n) < line_count(text),
    decreases n,
{
    if n > 0 {
        lemma_line_of_bound(text, n - 1);
    }
    if n <= text.len() {
        lemma_line_of_monotonic(text, n, text.len() as int);
    } else {
        lemma_line_of_past_end(text, n);
    }
}

/// No line ends past the end of the text.
pub proof fn lemma_line_of_past_end(text: Seq<char>, n: int)
    requires
        text.len() <= n,
    ensures
        line_of(text, n) == line_of(text, text.len() as int),
    decreases n,
{
    if text.len() < n {
        lemma_line_of_past_end(text, n - 1);
    }
}

/// At most `n` offsets lie below `n`.
pub proof fn lemma_chars_before_line_bound(text: Seq<char>, line: nat, n: int)
    ensures
        chars_before_line(text, line, n) <= if n <= 0 { 0 } else { n },
    decreases n,
{
    if n > 0 {
        lemma_chars_before_line_bound(text, line, n - 1);
    }
}

/// The offsets that lie on a line before `line` are exactly those below
/// their number: they form a prefix of the offsets below `n`, and the first
/// offset after them, if it is below `n`, lies on `line` or later.
pub proof fn lemma_chars_before_line_is_prefix(text: Seq<char>, line: nat, n: int)
    requires
        0 <= n,
    ensures
        chars_before_line(text, line, n) <= n,
        forall|i: int|
            0 <= i < chars_before_line(text, line, n) ==> #[trigger] line_of(text, i) < line,
        chars_before_line(text, line, n) < n ==> line_of(
            text,
            chars_before_line(text, line, n) as int,
        ) >= line,
    decreases n,
{
    if n > 0 {
        lemma_chars_before_line_is_prefix(text, line, n - 1);
        if line_of(text, n - 1) < line {
            let below = chars_before_line(text, line, n - 1);
            if below < n - 1 {
                lemma_line_of_monotonic(text, below as int, n - 1);
            }
            assert forall|i: int| 0 <= i < n implies #[trigger] line_of(text, i) < line by {
                lemma_line_of_monotonic(text, i, n - 1);
            }
        }
    }
}

/// A line starts inside the text or at its end.
pub proof fn lemma_line_start_bound(text: Seq<char>, line: nat)
    ensures
        line_start(text, line) <= text.len(),
{
    lemma_chars_before_line_bound(text, line, text.len() as int);
}

/// The first line starts at offset 0.
pub proof fn lemma_line_start_zero(text: Seq<char>)
    ensures
        line_start(text, 0) == 0,
{
    lemma_chars_before_line_is_prefix(text, 0, text.len() as int);
    if line_start(text, 0) > 0 {
        assert(line_of(text, 0) < 0);
    }
}

/// A line past the last one starts at the end of the text.
pub proof fn lemma_line_start_past_end(text: Seq<char>, line: nat)
    requires
        line_count(text) <= line,
    ensures
        line_start(text, line) == text.len(),
{
    let len = text.len() as int;
    lemma_chars_before_line_is_prefix(text, line, len);
    let start = line_start(text, line);
    if start < len {
        lemma_line_of_monotonic(text, start as int, len);
    }
}

/// The start of a line of the text lies on that line, and every offset
/// before it lies on an earlier line.
pub proof fn lemma_line_start_on_line(text: Seq<char>, line: nat)
    requires
        line < line_count(text),
    ensures
        line_of(text, line_start(text, line) as int) == line,
        forall|i: int| 0 <= i < line_start(text, line) ==> #[trigger] line_of(text, i) < line,
{
    let len = text.len() as int;
    lemma_chars_before_line_is_prefix(text, line, len);
    let start = line_start(text, line) as int;
    if start > 0 {
        assert(line_of(text, start - 1) < line);
    }
}

/// The line that holds an offset starts at or before that offset.
pub proof fn lemma_line_start_of_line_of(text: Seq<char>, i: int)
    requires
        0 <= i <= text.len(),
    ensures
        line_start(text, line_of(text, i)) <= i,
{
    lemma_line_of_bound(text, i);
    lemma_line_start_on_line(text, line_of(text, i));
}

/// Every line but the first starts after at least one character, unless
/// the text is empty.
pub proof fn lemma_line_start_positive(text: Seq<char>, line: nat)
    requires
        line >= 1,
        text.len() >= 1,
    ensures
        line_start(text, line) >= 1,
{
    lemma_chars_before_line_is_prefix(text, line, text.len() as int);
}

/// A later line starts at or after an earlier one.
pub proof fn lemma_line_start_monotonic(text: Seq<char>, first: nat, second: nat)
    requires
        first <= second,
    ensures
        line_start(text, first) <= line_start(text, second),
{
    let len = text.len() as int;
    lemma_chars_before_line_is_prefix(text, first, len);
    lemma_chars_before_line_is_prefix(text, second, len);
    let a = line_start(text, first) as int;
    let b = line_start(text, second) as int;
    if b < a {
        assert(line_of(text, b) < first);
    }
}

/// The offset in bytes of the character at offset `n`: the number of bytes
/// that the `n` characters before it take in UTF-8. Past the end of the
/// text it is the length of the whole text in bytes.
pub open spec fn byte_offset(text: Seq<char>, n: int) -> nat {
    if n <= 0 {
        0
    } else if n >= text.len() {
        encode_utf8(text).len()
    } else {
        encode_utf8(text.subrange(0, n)).len()
    }
}

/// The number of characters among the first `n` that end at or before the
/// byte at offset `byte_idx`.
pub open spec fn chars_within(text: Seq<char>, byte_idx: int, n: int) -> nat
    decreases n,
{
    if n <= 0 {
        0
    } else {
        chars_within(text, byte_idx, n - 1) + if byte_offset(text, n) <= byte_idx {
            1nat
        } else {
            0nat
        }
    }
}

/// The offset of the character that holds the byte at offset `byte_idx`:
/// the number of characters that end at or before that byte. Past the end
/// of the text it is the length of the text.
pub open spec fn char_at_byte(text: Seq<char>, byte_idx: int) -> nat {
    chars_within(text, byte_idx, text.len() as int)
}

/// The encoding of two texts, one after the other, is the encoding of the
/// first followed by the encoding of the second.
pub proof fn lemma_encode_concat(first: Seq<char>, second: Seq<char>)
    ensures
        encode_utf8(first + second) == encode_utf8(first) + encode_utf8(second),
    decreases first.len(),
{
    if first.len() == 0 {
        assert(first + second == second);
    } else {
        lemma_encode_concat(first.drop_first(), second);
        assert((first + second).drop_first() == first.drop_first() + second);
    }
}

/// A character takes at least one byte and at most four.
pub proof fn lemma_encode_scalar_len(c: char)
    ensures
        1 <= encode_scalar(c as u32).len() <= 4,
{
}

/// The byte offset grows with each character by the bytes that the
/// character takes.
pub proof fn lemma_byte_offset_step(text: Seq<char>, n: int)
    requires
        0 <= n < text.len(),
    ensures
        byte_offset(text, n + 1) == byte_offset(text, n) + encode_scalar(text[n] as u32).len(),
        byte_offset(text, n) < byte_offset(text, n + 1),
{
    let before = text.subrange(0, n);
    let upto = text.subrange(0, n + 1);
    assert(upto == before + seq![text[n]]);
    lemma_encode_concat(before, seq![text[n]]);
    assert(seq![text[n]].drop_first() == Seq::<char>::empty());
    assert(encode_utf8(seq![text[n]]) == encode_scalar(text[n] as u32) + encode_utf8(
        Seq::<char>::empty(),
    ));
    lemma_encode_scalar_len(text[n]);
    assert(text.subrange(0, text.len() as int) == text);
    assert(text.subrange(0, 0) == Seq::<char>::empty());
}

/// Later characters lie at later bytes.
pub proof fn lemma_byte_offset_monotonic(text: Seq<char>, i: int, j: int)
    requires
        i <= j,
    ensures
        byte_offset(text, i) <= byte_offset(text, j),
        0 <= i < j <= text.len() ==> byte_offset(text, i) < byte_offset(text, j),
    decreases j - i,
{
    if i < j {
        lemma_byte_offset_monotonic(text, i, j - 1);
        if 0 <= j - 1 < text.len() {
            lemma_byte_offset_step(text, j - 1);
        }
    }
}

/// The characters that end at or before a byte are exactly the first so
/// many: every character among them ends at or before the byte, and the
/// one after them, if it is among the first `n`, ends after it.
pub proof fn lemma_chars_within_is_prefix(text: Seq<char>, byte_idx: int, n: int)
    requires
        0 <= n,
    ensures
        chars_within(text, byte_idx, n) <= n,
        chars_within(text, byte_idx, n) > 0 ==> byte_offset(
            text,
            chars_within(text, byte_idx, n) as int,
        ) <= byte_idx,
        chars_within(text, byte_idx, n) < n ==> byte_offset(
            text,
            chars_within(text, byte_idx, n) as int + 1,
        ) > byte_idx,
    decreases n,
{
    if n > 0 {
        lemma_chars_within_is_prefix(text, byte_idx, n - 1);
        let within = chars_within(text, byte_idx, n - 1) as int;
        if byte_offset(text, n) <= byte_idx {
            if within < n - 1 {
                lemma_byte_offset_monotonic(text, within + 1, n);
            }
        }
    }
}

/// The character that holds a byte lies inside the text or at its end, and
/// starts at or before the byte.
pub proof fn lemma_char_at_byte_bound(text: Seq<char>, byte_idx: int)
    requires
        0 <= byte_idx,
    ensures
        char_at_byte(text, byte_idx) <= text.len(),
        byte_offset(text, char_at_byte(text, byte_idx) as int) <= byte_idx,
{
    lemma_chars_within_is_prefix(text, byte_idx, text.len() as int);
}

/// Every byte past the end of the text is held by the end of the text.
pub proof fn lemma_char_at_byte_past_end(text: Seq<char>, byte_idx: int)
    requires
        encode_utf8(text).len() <= byte_idx,
    ensures
        char_at_byte(text, byte_idx) == text.len(),
{
    let len = text.len() as int;
    lemma_chars_within_is_prefix(text, byte_idx, len);
    let within = char_at_byte(text, byte_idx) as int;
    if within < len {
        lemma_byte_offset_monotonic(text, within + 1, len);
    }
}

/// The character that holds the first byte of a character is that
/// character: converting an offset to bytes and back gives the offset.
pub proof fn lemma_char_at_byte_of_offset(text: Seq<char>, n: int)
    requires
        0 <= n <= text.len(),
    ensures
        char_at_byte(text, byte_offset(text, n) as int) == n,
{
    let len = text.len() as int;
    let byte_idx = byte_offset(text, n) as int;
    lemma_chars_within_is_prefix(text, byte_idx, len);
    let within = char_at_byte(text, byte_idx) as int;
    if within < n {
        lemma_byte_offset_monotonic(text, within + 1, n);
    }
    if n < within {
        lemma_byte_offset_monotonic(text, n, within);
    }
}

} // verus!
