//! The rope that holds a buffer's text, and what is taken on trust of it.
//!
//! The rope comes from the `ropey` crate. Nothing in this file is proved:
//! each function states what `ropey` documents of one of its methods, over
//! the sequence of characters that the rope holds.

use crate::text::{byte_offset, char_at_byte, line_count, line_of, line_start};
use ropey::Rope;
use vstd::prelude::*;
use vstd::utf8::{decode_utf8, encode_utf8, valid_utf8};

verus! {

/// `ropey::Rope`, a text rope. Its inside is not looked at.
#[verifier::external_type_specification]
#[verifier::external_body]
pub struct ExRope(ropey::Rope);

/// The characters that a rope holds, in order.
pub uninterp spec fn rope_text(rope: Rope) -> Seq<char>;

/// `Rope::clone`: a rope that holds the same text.
pub assume_specification[ <Rope as Clone>::clone ](rope: &Rope) -> (copy: Rope)
    ensures
        rope_text(copy) == rope_text(*rope),
;

/// `Rope::new`: an empty rope.
#[verifier::external_body]
pub(crate) fn rope_new() -> (rope: Rope)
    ensures
        rope_text(rope) == Seq::<char>::empty(),
{
    Rope::new()
}

/// `Rope::from_str`: a rope that holds the characters of `text`.
#[verifier::external_body]
pub(crate) fn rope_from_str(text: &str) -> (rope: Rope)
    ensures
        rope_text(rope) == text@,
{
    Rope::from_str(text)
}

/// `Rope::len_chars`: the number of characters in the rope.
#[verifier::external_body]
pub(crate) fn rope_len_chars(rope: &Rope) -> (len: usize)
    ensures
        len == rope_text(*rope).len(),
{
    rope.len_chars()
}

/// `std::io::Error`, which `Rope::from_reader` returns on failure. Its
/// inside is not looked at.
#[verifier::external_type_specification]
#[verifier::external_body]
pub struct ExIoError(std::io::Error);

/// `Rope::from_reader`, reading from a slice of bytes: the rope holds the
/// text that the bytes encode in UTF-8. It fails exactly when the bytes are
/// not valid UTF-8; reading from a slice gives no other error.
#[verifier::external_body]
pub(crate) fn rope_from_reader(bytes: &[u8]) -> (result: Result<Rope, std::io::Error>)
    ensures
        result is Ok <==> valid_utf8(bytes@),
        result matches Ok(rope) ==> rope_text(rope) == decode_utf8(bytes@),
{
    Rope::from_reader(bytes)
}

/// `Rope::write_to`, writing into a vector of bytes: what is written is the
/// UTF-8 encoding of the rope's text. `write_to` fails only when the writer
/// does, and a vector does not.
#[verifier::external_body]
pub(crate) fn rope_write_to(rope: &Rope) -> (bytes: Vec<u8>)
    ensures
        bytes@ == encode_utf8(rope_text(*rope)),
{
    let mut bytes: Vec<u8> = Vec::new();
    let _ = rope.write_to(&mut bytes);
    bytes
}

/// `Rope::len_bytes`: the length of the rope's text in UTF-8.
#[verifier::external_body]
pub(crate) fn rope_len_bytes(rope: &Rope) -> (len: usize)
    ensures
        len == encode_utf8(rope_text(*rope)).len(),
{
    rope.len_bytes()
}

/// `Rope::len_lines`: the number of lines, one more than the line breaks
/// in the text.
#[verifier::external_body]
pub(crate) fn rope_len_lines(rope: &Rope) -> (lines: usize)
    ensures
        lines == line_count(rope_text(*rope)),
{
    rope.len_lines()
}

/// `Rope::char_to_line`: the index of the line that holds the character at
/// `char_idx`, which counts the line breaks before it. `char_idx` may be the
/// length of the text; past that the method panics.
#[verifier::external_body]
pub(crate) fn rope_char_to_line(rope: &Rope, char_idx: usize) -> (line: usize)
    requires
        char_idx <= rope_text(*rope).len(),
    ensures
        line == line_of(rope_text(*rope), char_idx as int),
{
    rope.char_to_line(char_idx)
}

/// `Rope::line_to_char`: the offset of the first character of line
/// `line_idx`. `line_idx` may be the number of lines, which gives the length
/// of the text; past that the method panics.
#[verifier::external_body]
pub(crate) fn rope_line_to_char(rope: &Rope, line_idx: usize) -> (offset: usize)
    requires
        line_idx <= line_count(rope_text(*rope)),
    ensures
        offset == line_start(rope_text(*rope), line_idx as nat),
{
    rope.line_to_char(line_idx)
}

/// `Rope::char_to_byte`: the offset in bytes of the character at
/// `char_idx`. `char_idx` may be the length of the text, which gives its
/// length in bytes; past that the method panics.
#[verifier::external_body]
pub(crate) fn rope_char_to_byte(rope: &Rope, char_idx: usize) -> (byte_idx: usize)
    requires
        char_idx <= rope_text(*rope).len(),
    ensures
        byte_idx == byte_offset(rope_text(*rope), char_idx as int),
{
    rope.char_to_byte(char_idx)
}

/// `Rope::byte_to_char`: the offset of the character that the byte at
/// `byte_idx` belongs to. `byte_idx` may be the length of the text in bytes,
/// which gives its length in characters; past that the method panics.
#[verifier::external_body]
pub(crate) fn rope_byte_to_char(rope: &Rope, byte_idx: usize) -> (char_idx: usize)
    requires
        byte_idx <= encode_utf8(rope_text(*rope)).len(),
    ensures
        char_idx == char_at_byte(rope_text(*rope), byte_idx as int),
{
    rope.byte_to_char(byte_idx)
}

/// `Rope::insert`: `text` is put in before the character at `char_idx`.
/// Past the length of the text the method panics.
#[verifier::external_body]
pub(crate) fn rope_insert(rope: &mut Rope, char_idx: usize, text: &str)
    requires
        char_idx <= rope_text(*old(rope)).len(),
    ensures
        rope_text(*final(rope)) == rope_text(*old(rope)).subrange(0, char_idx as int) + text@
            + rope_text(*old(rope)).subrange(char_idx as int, rope_text(*old(rope)).len() as int),
{
    rope.insert(char_idx, text)
}

/// `Rope::remove`: the characters from `start` up to `end` leave the rope.
/// The method panics when `start` is past `end` or `end` past the length of
/// the text.
#[verifier::external_body]
pub(crate) fn rope_remove(rope: &mut Rope, start: usize, end: usize)
    requires
        start <= end <= rope_text(*old(rope)).len(),
    ensures
        rope_text(*final(rope)) == rope_text(*old(rope)).subrange(0, start as int) + rope_text(
            *old(rope),
        ).subrange(end as int, rope_text(*old(rope)).len() as int),
{
    rope.remove(start..end)
}

/// `Rope::slice`, made into a `String`: the characters from `start` up to
/// `end`. The method panics when `start` is past `end` or `end` past the
/// length of the text.
#[verifier::external_body]
pub(crate) fn rope_slice(rope: &Rope, start: usize, end: usize) -> (text: String)
    requires
        start <= end <= rope_text(*rope).len(),
    ensures
        text@ == rope_text(*rope).subrange(start as int, end as int),
{
    rope.slice(start..end).to_string()
}

} // verus!
