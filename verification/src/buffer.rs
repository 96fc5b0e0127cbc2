//! A text buffer, and views onto it that each hold a point.
//!
//! A [`Buffer`] owns the text, the path it is stored under and a flag that
//! says whether the text has changed since it was last saved. A
//! [`BufferView`] holds a point into a buffer; several views may refer to
//! one buffer, so every command of a view is handed the buffer it works on.
//! The buffer does not touch the file system: it takes the bytes that were
//! read, and hands out the bytes that are to be written.

use crate::rope::{
    rope_byte_to_char, rope_char_to_byte, rope_char_to_line, rope_from_reader, rope_from_str,
    rope_insert, rope_len_bytes, rope_len_chars, rope_len_lines, rope_line_to_char, rope_new,
    rope_remove, rope_slice, rope_text, rope_write_to,
};
use crate::text::{
    byte_offset, char_at_byte, clamped_line, lemma_char_at_byte_bound, lemma_char_at_byte_past_end,
    lemma_line_of_bound, lemma_line_of_past_end, lemma_line_start_bound,
    lemma_line_start_monotonic, lemma_line_start_past_end, lemma_line_start_positive,
    lemma_line_start_zero, line_count,
    line_of, line_start,
};
use ropey::Rope;
use std::ops::Range;
use std::path::PathBuf;
use vstd::prelude::*;
use vstd::utf8::{decode_utf8, encode_utf8, valid_utf8};

verus! {

/// `text` with `inserted` put in before offset `at`.
pub open spec fn text_with_insert(text: Seq<char>, at: int, inserted: Seq<char>) -> Seq<char> {
    text.subrange(0, at) + inserted + text.subrange(at, text.len() as int)
}

/// `text` without the characters from `start` up to `end`. A range that
/// holds no offset takes nothing away.
pub open spec fn text_without(text: Seq<char>, start: int, end: int) -> Seq<char> {
    if start < end {
        text.subrange(0, start) + text.subrange(end, text.len() as int)
    } else {
        text
    }
}

/// The bytes that store `text`: its encoding in UTF-8.
pub open spec fn stored_bytes(text: Seq<char>) -> Seq<u8> {
    encode_utf8(text)
}

/// The text that `bytes` store, if they store a text: they do when they are
/// valid UTF-8.
pub open spec fn loaded_text(bytes: Seq<u8>) -> Option<Seq<char>> {
    if valid_utf8(bytes) {
        Some(decode_utf8(bytes))
    } else {
        None
    }
}

/// Loading what was saved gives the saved text back, whatever the text is.
pub proof fn lemma_save_load_round_trip(text: Seq<char>)
    ensures
        loaded_text(stored_bytes(text)) == Some(text),
{
    vstd::utf8::encode_utf8_valid_utf8(text);
    vstd::utf8::encode_utf8_decode_utf8(text);
}

/// An insert at an offset inside a text makes the text longer by what was
/// put in, which then stands at that offset, between what was before and
/// what was after it. Whoever reads the text afterwards reads this.
pub proof fn lemma_insert_is_seen(text: Seq<char>, at: int, inserted: Seq<char>)
    requires
        0 <= at <= text.len(),
    ensures
        text_with_insert(text, at, inserted).len() == text.len() + inserted.len(),
        text_with_insert(text, at, inserted).subrange(0, at) == text.subrange(0, at),
        text_with_insert(text, at, inserted).subrange(at, at + inserted.len()) == inserted,
        text_with_insert(text, at, inserted).subrange(
            at + inserted.len(),
            (text.len() + inserted.len()) as int,
        ) == text.subrange(at, text.len() as int),
{
}

/// Taking a range inside a text out of it makes the text shorter by the
/// length of the range, and leaves what was before and after the range.
pub proof fn lemma_remove_is_seen(text: Seq<char>, start: int, end: int)
    requires
        0 <= start <= end <= text.len(),
    ensures
        text_without(text, start, end).len() == text.len() - (end - start),
        text_without(text, start, end).subrange(0, start) == text.subrange(0, start),
        text_without(text, start, end).subrange(start, text.len() - (end - start))
            == text.subrange(end, text.len() as int),
{
}

/// Why bytes could not be loaded into a buffer.
#[derive(Clone, Copy, Debug, PartialEq, Eq, Structural)]
pub enum LoadError {
    /// The bytes are not text in UTF-8.
    InvalidData,
}

/// What has to be written to store a buffer: the bytes, and the path of the
/// file that is to hold them.
#[derive(Clone, Debug)]
pub struct WriteRequest {
    pub path: PathBuf,
    pub bytes: Vec<u8>,
}

/// The text of a document, with the path it is stored under, if any, and a
/// flag that is set while the text differs from what was last saved.
#[derive(Debug)]
pub struct Buffer {
    path: Option<PathBuf>,
    rope: Rope,
    is_modified: bool,
}

impl View for Buffer {
    type V = Seq<char>;

    /// The characters of the buffer, in order.
    closed spec fn view(&self) -> Seq<char> {
        rope_text(self.rope)
    }
}

impl Clone for Buffer {
    /// A buffer of its own with the same text, path and flag.
    fn clone(&self) -> (copy: Buffer)
        ensures
            copy@ == self@,
            copy.spec_path() == self.spec_path(),
            copy.spec_is_modified() == self.spec_is_modified(),
    {
        let path = match &self.path {
            Some(path) => Some(path.clone()),
            None => None,
        };
        Buffer { path, rope: self.rope.clone(), is_modified: self.is_modified }
    }
}

impl Default for Buffer {
    /// An empty buffer without a path.
    fn default() -> (buffer: Buffer)
        ensures
            buffer@ == Seq::<char>::empty(),
            buffer.spec_path() is None,
            !buffer.spec_is_modified(),
    {
        Buffer::new()
    }
}

impl Buffer {
    /// The path that the buffer is stored under, if it has one.
    pub closed spec fn spec_path(&self) -> Option<PathBuf> {
        self.path
    }

    /// Whether the text has changed since the buffer was loaded or saved.
    pub closed spec fn spec_is_modified(&self) -> bool {
        self.is_modified
    }

    /// An empty buffer without a path.
    pub fn new() -> (buffer: Buffer)
        ensures
            buffer@ == Seq::<char>::empty(),
            buffer.spec_path() is None,
            !buffer.spec_is_modified(),
    {
        Buffer { path: None, is_modified: false, rope: rope_new() }
    }

    /// The buffer for a file: `bytes` is what the file at `path` holds. The
    /// bytes must be text in UTF-8.
    pub fn load(path: PathBuf, bytes: &[u8]) -> (result: Result<Buffer, LoadError>)
        ensures
            result is Ok <==> loaded_text(bytes@) is Some,
            result matches Ok(buffer) ==> {
                &&& Some(buffer@) == loaded_text(bytes@)
                &&& buffer.spec_path() == Some(path)
                &&& !buffer.spec_is_modified()
            },
            result matches Err(error) ==> error == LoadError::InvalidData,
    {
        match rope_from_reader(bytes) {
            Ok(rope) => Ok(Buffer { path: Some(path), is_modified: false, rope }),
            Err(_) => Err(LoadError::InvalidData),
        }
    }

    /// A buffer that holds `string`, without a path.
    pub fn from_string(string: &str) -> (buffer: Buffer)
        ensures
            buffer@ == string@,
            buffer.spec_path() is None,
            !buffer.spec_is_modified(),
    {
        Buffer { path: None, is_modified: false, rope: rope_from_str(string) }
    }

    /// What to write to store the buffer under `path`: the whole text,
    /// whether it has changed or not.
    pub fn save_as(&self, path: &PathBuf) -> (request: WriteRequest)
        ensures
            request.path == *path,
            request.bytes@ == stored_bytes(self@),
    {
        WriteRequest { path: path.clone(), bytes: rope_write_to(&self.rope) }
    }

    /// What to write to save the buffer, if anything: nothing when the text
    /// has not changed or the buffer has no path, else the whole text under
    /// the buffer's path. Once it is written, [`Buffer::mark_saved`] records
    /// that.
    pub fn save(&self) -> (request: Option<WriteRequest>)
        ensures
            request is Some <==> self.spec_is_modified() && self.spec_path() is Some,
            request matches Some(write) ==> {
                &&& Some(write.path) == self.spec_path()
                &&& write.bytes@ == stored_bytes(self@)
            },
    {
        if !self.is_modified {
            return None;
        }
        match &self.path {
            Some(path) => Some(self.save_as(path)),
            None => None,
        }
    }

    /// Records that the text has been written to the buffer's path.
    pub fn mark_saved(&mut self)
        ensures
            !final(self).spec_is_modified(),
            final(self)@ == old(self)@,
            final(self).spec_path() == old(self).spec_path(),
    {
        self.is_modified = false;
    }

    /// The number of characters in the buffer.
    pub fn len_chars(&self) -> (len: usize)
        ensures
            len == self@.len(),
    {
        rope_len_chars(&self.rope)
    }

    /// The number of lines in the buffer.
    pub fn len_lines(&self) -> (lines: usize)
        ensures
            lines == line_count(self@),
    {
        rope_len_lines(&self.rope)
    }

    /// The length of the buffer's text in UTF-8.
    pub fn len_bytes(&self) -> (len: usize)
        ensures
            len == stored_bytes(self@).len(),
    {
        rope_len_bytes(&self.rope)
    }

    /// The index of the line that holds offset `char_idx`. An offset past
    /// the end of the text lies on the last line.
    pub fn char_to_line(&self, char_idx: usize) -> (line: usize)
        ensures
            line == line_of(self@, char_idx as int),
            line < line_count(self@),
    {
        let len = rope_len_chars(&self.rope);
        proof {
            lemma_line_of_bound(self@, char_idx as int);
            if len < char_idx {
                lemma_line_of_past_end(self@, char_idx as int);
            }
        }
        rope_char_to_line(&self.rope, if char_idx < len { char_idx } else { len })
    }

    /// The offset at which line `line_idx` starts. For an index past the
    /// last line it is the offset at which the last line starts.
    pub fn line_to_char(&self, line_idx: usize) -> (offset: usize)
        ensures
            offset == line_start(self@, clamped_line(self@, line_idx as nat)),
            offset <= self@.len(),
    {
        let lines = rope_len_lines(&self.rope);
        proof {
            lemma_line_start_bound(self@, clamped_line(self@, line_idx as nat));
        }
        rope_line_to_char(&self.rope, if line_idx < lines { line_idx } else { lines - 1 })
    }

    /// The offset at which line `line_idx` starts, where the line after the
    /// last one counts as starting at the end of the text, and so does
    /// every line past it.
    fn line_bound(&self, line_idx: usize) -> (offset: usize)
        ensures
            offset == line_start(self@, line_idx as nat),
            offset <= self@.len(),
    {
        let lines = rope_len_lines(&self.rope);
        proof {
            lemma_line_start_bound(self@, line_idx as nat);
            if lines < line_idx {
                lemma_line_start_past_end(self@, line_idx as nat);
                lemma_line_start_past_end(self@, lines as nat);
            }
        }
        rope_line_to_char(&self.rope, if line_idx < lines { line_idx } else { lines })
    }

    /// The offset in bytes of the character at offset `char_idx`, in the
    /// text as UTF-8. An offset past the end of the text gives the length
    /// of the text in bytes.
    pub fn char_to_byte(&self, char_idx: usize) -> (byte_idx: usize)
        ensures
            byte_idx == byte_offset(self@, char_idx as int),
    {
        let len = rope_len_chars(&self.rope);
        rope_char_to_byte(&self.rope, if char_idx < len { char_idx } else { len })
    }

    /// The offset of the character that holds the byte at offset
    /// `byte_idx` of the text as UTF-8. A byte past the end of the text
    /// gives the length of the text.
    pub fn byte_to_char(&self, byte_idx: usize) -> (char_idx: usize)
        ensures
            char_idx == char_at_byte(self@, byte_idx as int),
            char_idx <= self@.len(),
    {
        let len = rope_len_bytes(&self.rope);
        proof {
            lemma_char_at_byte_bound(self@, byte_idx as int);
            if len < byte_idx {
                lemma_char_at_byte_past_end(self@, byte_idx as int);
                lemma_char_at_byte_past_end(self@, len as int);
            }
        }
        rope_byte_to_char(&self.rope, if byte_idx < len { byte_idx } else { len })
    }

    /// Puts `text` in before offset `char_idx`.
    pub fn insert(&mut self, char_idx: usize, text: &str)
        requires
            char_idx <= old(self)@.len(),
        ensures
            final(self)@ == text_with_insert(old(self)@, char_idx as int, text@),
            final(self).spec_is_modified(),
            final(self).spec_path() == old(self).spec_path(),
    {
        rope_insert(&mut self.rope, char_idx, text);
        self.is_modified = true;
    }

    /// Takes out the characters from `char_range.start` up to
    /// `char_range.end`.
    pub fn remove(&mut self, char_range: Range<usize>)
        requires
            char_range.end <= old(self)@.len(),
        ensures
            final(self)@ == text_without(
                old(self)@,
                char_range.start as int,
                char_range.end as int,
            ),
            final(self).spec_is_modified(),
            final(self).spec_path() == old(self).spec_path(),
    {
        if char_range.start < char_range.end {
            rope_remove(&mut self.rope, char_range.start, char_range.end);
        }
        self.is_modified = true;
    }

    /// The characters from `char_range.start` up to `char_range.end`.
    pub fn slice(&self, char_range: Range<usize>) -> (text: String)
        requires
            char_range.start <= char_range.end <= self@.len(),
        ensures
            text@ == self@.subrange(char_range.start as int, char_range.end as int),
    {
        rope_slice(&self.rope, char_range.start, char_range.end)
    }

    /// The whole text.
    pub fn text(&self) -> (text: String)
        ensures
            text@ == self@,
    {
        let len = rope_len_chars(&self.rope);
        let text = rope_slice(&self.rope, 0, len);
        assert(self@.subrange(0, len as int) == self@);
        text
    }

    /// Whether the text has changed since the buffer was loaded or saved.
    pub fn is_modified(&self) -> (modified: bool)
        ensures
            modified == self.spec_is_modified(),
    {
        self.is_modified
    }

    /// The path that the buffer is stored under, if it has one.
    pub fn path(&self) -> (path: Option<&PathBuf>)
        ensures
            path is Some <==> self.spec_path() is Some,
            path matches Some(p) ==> Some(*p) == self.spec_path(),
    {
        self.path.as_ref()
    }

    /// The rope that holds the text, to read from.
    pub fn rope(&self) -> (rope: &Rope)
        ensures
            rope_text(*rope) == self@,
    {
        &self.rope
    }
}

/// A point in a text, or a selection: the offsets from `start` up to `end`.
/// `start` lies before the first selected character and `end` after the
/// last; with `start == end` nothing is selected.
pub type Point = Range<usize>;

/// Whether `point` stands at `offset` with nothing selected.
pub open spec fn collapsed_at(point: Point, offset: int) -> bool {
    point.start == offset && point.end == offset
}

/// Whether `after` is where `before` moves one character forward in a text
/// of `len` characters: past the character after its end with nothing
/// selected, or nowhere when there is no such character.
pub open spec fn moved_forward(before: Point, after: Point, len: nat) -> bool {
    if before.end < len {
        collapsed_at(after, before.end + 1)
    } else {
        after == before
    }
}

/// Whether `after` is where `before` moves one character backward: before
/// the character that precedes its start with nothing selected, or nowhere
/// when there is no such character.
pub open spec fn moved_backward(before: Point, after: Point) -> bool {
    if before.start > 0 {
        collapsed_at(after, before.start - 1)
    } else {
        after == before
    }
}

/// The offset that a point at `offset` reaches by moving to the end of its
/// line. On the first line that is the end of the text. On a later line it
/// is one character before the start of the line that follows: before the
/// line break that ends the line, where that is a single character, and
/// before the last character of the text on its last line.
pub open spec fn end_of_line(text: Seq<char>, offset: int) -> int {
    let line = line_of(text, offset);
    if line == 0 {
        text.len() as int
    } else {
        line_start(text, line + 1) - 1
    }
}

/// The offset that a point at `offset` reaches by moving to the start of
/// its line.
pub open spec fn start_of_line(text: Seq<char>, offset: int) -> int {
    line_start(text, line_of(text, offset)) as int
}

/// The end of what `delete_at_point` takes out for a point in a text of
/// `len` characters: the end of the selection, or, with nothing selected,
/// the end of the one character after the point, if there is one.
pub open spec fn delete_end(point: Point, len: nat) -> int {
    if point.start == point.end && point.end < len {
        point.end + 1
    } else {
        point.end as int
    }
}

/// The text of the lines from `first` up to `end`: what lies between the
/// starts of the two lines. A range that holds no line has no text.
pub open spec fn lines_text(text: Seq<char>, first: nat, end: nat) -> Seq<char> {
    if first <= end {
        text.subrange(line_start(text, first) as int, line_start(text, end) as int)
    } else {
        Seq::empty()
    }
}

/// A command for the shell: a program and its arguments.
#[derive(Clone, Debug)]
pub struct ShellCommand {
    pub program: String,
    pub args: Vec<String>,
}

/// A view onto a buffer: it holds the point at which the buffer is edited.
#[derive(Debug)]
pub struct BufferView {
    point: Point,
}

impl Clone for BufferView {
    /// A view of its own with the same point.
    fn clone(&self) -> (copy: BufferView)
        ensures
            copy@ == self@,
    {
        BufferView { point: Range { start: self.point.start, end: self.point.end } }
    }
}

impl View for BufferView {
    type V = Point;

    /// The point of the view.
    closed spec fn view(&self) -> Point {
        self.point
    }
}

impl BufferView {
    /// Whether the point lies inside the text of `buffer`, its start not
    /// after its end.
    pub open spec fn in_bounds(&self, buffer: &Buffer) -> bool {
        self@.start <= self@.end <= buffer@.len()
    }

    /// A view onto `buffer`, its point at the start of the text.
    pub fn new(buffer: &Buffer) -> (view: BufferView)
        ensures
            collapsed_at(view@, 0),
            view.in_bounds(buffer),
    {
        BufferView { point: Range { start: 0, end: 0 } }
    }

    /// The point of the view.
    pub fn point(&self) -> (point: Point)
        ensures
            point == self@,
    {
        Range { start: self.point.start, end: self.point.end }
    }

    /// Whether the point lies inside the text of `buffer`.
    pub fn is_in_bounds(&self, buffer: &Buffer) -> (inside: bool)
        ensures
            inside == self.in_bounds(buffer),
    {
        self.point.start <= self.point.end && self.point.end <= buffer.len_chars()
    }

    /// Sets the point to the offsets from `point.start` up to `point.end`,
    /// moved back into the text of `buffer` where they lie past its end, and
    /// the start moved back to the end where it lies past that.
    pub fn set_point(&mut self, buffer: &Buffer, point: Point)
        ensures
            final(self)@.end == if point.end <= buffer@.len() {
                point.end as int
            } else {
                buffer@.len() as int
            },
            final(self)@.start == if point.start <= final(self)@.end {
                point.start
            } else {
                final(self)@.end
            },
            final(self).in_bounds(buffer),
    {
        let len = buffer.len_chars();
        let end = if point.end <= len { point.end } else { len };
        let start = if point.start <= end { point.start } else { end };
        self.point = Range { start, end };
    }

    /// Moves the point past the character after its end, and drops the
    /// selection. At the end of the text the point stays as it is.
    pub fn move_point_forward_char(&mut self, buffer: &Buffer)
        ensures
            moved_forward(old(self)@, final(self)@, buffer@.len()),
            old(self)@.end >= buffer@.len() ==> final(self)@ == old(self)@,
            old(self).in_bounds(buffer) ==> final(self).in_bounds(buffer),
    {
        if self.point.end < buffer.len_chars() {
            self.point.end += 1;
            self.point.start = self.point.end;
        }
    }

    /// Moves the point before the character that precedes its start, and
    /// drops the selection. At the start of the text the point stays as it
    /// is.
    pub fn move_point_backward_char(&mut self)
        ensures
            moved_backward(old(self)@, final(self)@),
            old(self)@.start == 0 ==> final(self)@ == old(self)@,
            forall|buffer: &Buffer|
                old(self).in_bounds(buffer) ==> #[trigger] final(self).in_bounds(buffer),
    {
        if self.point.start > 0 {
            self.point.start -= 1;
            self.point.end = self.point.start;
        }
    }

    /// Moves the point to the end of the line that holds its end, as
    /// [`end_of_line`] defines it, and drops the selection.
    pub fn move_point_end_of_line(&mut self, buffer: &Buffer)
        ensures
            collapsed_at(final(self)@, end_of_line(buffer@, old(self)@.end as int)),
            final(self).in_bounds(buffer),
    {
        let line_idx = buffer.char_to_line(self.point.end);
        let idx = if line_idx == 0 {
            buffer.len_chars()
        } else {
            let lines = buffer.len_lines();
            let next_line = if line_idx < lines { line_idx + 1 } else { lines };
            proof {
                lemma_line_of_bound(buffer@, buffer@.len() as int);
                lemma_line_start_positive(buffer@, next_line as nat);
            }
            buffer.line_bound(next_line) - 1
        };
        self.point.start = idx;
        self.point.end = idx;
    }

    /// Moves the point to the start of the line that holds its start, and
    /// drops the selection.
    pub fn move_point_start_of_line(&mut self, buffer: &Buffer)
        ensures
            collapsed_at(final(self)@, start_of_line(buffer@, old(self)@.start as int)),
            final(self).in_bounds(buffer),
    {
        let line_idx = buffer.char_to_line(self.point.start);
        self.goto_line(buffer, line_idx);
    }

    /// Moves the point to offset `char_idx`, or to the end of the text when
    /// that lies before it, and drops the selection.
    pub fn goto_char(&mut self, buffer: &Buffer, char_idx: usize)
        ensures
            collapsed_at(
                final(self)@,
                if char_idx <= buffer@.len() {
                    char_idx as int
                } else {
                    buffer@.len() as int
                },
            ),
            final(self).in_bounds(buffer),
    {
        let len = buffer.len_chars();
        let idx = if char_idx <= len { char_idx } else { len };
        self.point.start = idx;
        self.point.end = idx;
    }

    /// The end of the point as an offset in bytes into the text as UTF-8,
    /// for those that address the text by bytes.
    pub fn position_bytes(&self, buffer: &Buffer) -> (byte_idx: usize)
        ensures
            byte_idx == byte_offset(buffer@, self@.end as int),
    {
        buffer.char_to_byte(self.point.end)
    }

    /// Moves the point to the character that holds the byte at offset
    /// `byte_idx` of the text as UTF-8, or to the end of the text when the
    /// text has no such byte, and drops the selection.
    pub fn set_position_bytes(&mut self, buffer: &Buffer, byte_idx: usize)
        ensures
            collapsed_at(final(self)@, char_at_byte(buffer@, byte_idx as int) as int),
            final(self).in_bounds(buffer),
    {
        let idx = buffer.byte_to_char(byte_idx);
        self.goto_char(buffer, idx);
    }

    /// Moves the point to the start of line `line_idx`, or to the start of
    /// the last line when the text has no such line, and drops the
    /// selection.
    pub fn goto_line(&mut self, buffer: &Buffer, line_idx: usize)
        ensures
            collapsed_at(
                final(self)@,
                line_start(buffer@, clamped_line(buffer@, line_idx as nat)) as int,
            ),
            line_count(buffer@) == 1 ==> collapsed_at(final(self)@, 0),
            final(self).in_bounds(buffer),
    {
        let lines = buffer.len_lines();
        proof {
            lemma_line_start_zero(buffer@);
        }
        let idx = buffer.line_to_char(if lines <= line_idx { lines } else { line_idx });
        self.point.start = idx;
        self.point.end = idx;
    }

    /// Moves the point to the end of the text, and drops the selection.
    pub fn goto_end_of_buffer(&mut self, buffer: &Buffer)
        ensures
            collapsed_at(final(self)@, buffer@.len() as int),
            final(self).in_bounds(buffer),
    {
        let len = buffer.len_chars();
        self.goto_char(buffer, len);
    }

    /// Moves the point to the start of the text, and drops the selection.
    pub fn goto_start_of_buffer(&mut self, buffer: &Buffer)
        ensures
            collapsed_at(final(self)@, 0),
            final(self).in_bounds(buffer),
    {
        self.goto_char(buffer, 0);
    }

    /// Puts `text` into `buffer` at the start of the point, and moves the
    /// point past what was put in, with nothing selected.
    pub fn insert_at_point(&mut self, buffer: &mut Buffer, text: &str)
        requires
            old(self)@.start <= old(buffer)@.len(),
        ensures
            final(buffer)@ == text_with_insert(old(buffer)@, old(self)@.start as int, text@),
            final(buffer)@.len() == old(buffer)@.len() + text@.len(),
            final(buffer).spec_is_modified(),
            final(buffer).spec_path() == old(buffer).spec_path(),
            collapsed_at(final(self)@, old(self)@.start + text@.len()),
            final(self).in_bounds(final(buffer)),
    {
        buffer.insert(self.point.start, text);
        let off = rope_len_chars(&rope_from_str(text));
        // The text now holds what was put in, so its length bounds the new point.
        let len = buffer.len_chars();
        assert(self.point.start + off <= len);
        self.point.start += off;
        self.point.end = self.point.start;
    }

    /// Deletes forward: takes the selection out of `buffer`, or, with
    /// nothing selected, the one character after the point, if there is
    /// one. The point is left where the deleted text started, with nothing
    /// selected.
    pub fn delete_at_point(&mut self, buffer: &mut Buffer)
        requires
            old(self).in_bounds(old(buffer)),
        ensures
            final(buffer)@ == text_without(
                old(buffer)@,
                old(self)@.start as int,
                delete_end(old(self)@, old(buffer)@.len()),
            ),
            final(buffer).spec_is_modified(),
            final(buffer).spec_path() == old(buffer).spec_path(),
            collapsed_at(final(self)@, old(self)@.start as int),
            final(self).in_bounds(final(buffer)),
    {
        let len = buffer.len_chars();
        let to = if self.point.start == self.point.end && self.point.end < len {
            self.point.end + 1
        } else {
            self.point.end
        };
        buffer.remove(Range { start: self.point.start, end: to });
        self.point.end = self.point.start;
    }
    /// Moving the point to the next line is not supported: a wrapped line
    /// is shown as several, and which of them is the next one is not
    /// settled. Nothing changes.
    pub fn move_point_forward_line(&mut self)
        ensures
            final(self)@ == old(self)@,
    {
    }

    /// Moving the point to the previous line is not supported, for the
    /// reason given at [`BufferView::move_point_forward_line`]. Nothing
    /// changes.
    pub fn move_point_backward_line(&mut self)
        ensures
            final(self)@ == old(self)@,
    {
    }

    /// Searching forward is not supported. Nothing changes.
    pub fn search_forward(&mut self)
        ensures
            final(self)@ == old(self)@,
    {
    }

    /// Searching forward for a pattern is not supported. Nothing changes.
    pub fn search_forward_rx(&mut self)
        ensures
            final(self)@ == old(self)@,
    {
    }

    /// Searching backward is not supported. Nothing changes.
    pub fn search_backward(&mut self)
        ensures
            final(self)@ == old(self)@,
    {
    }

    /// Searching backward for a pattern is not supported. Nothing changes.
    pub fn search_backward_rx(&mut self)
        ensures
            final(self)@ == old(self)@,
    {
    }

    /// Undoing an edit is not supported: how edits are recorded is not
    /// settled. Nothing changes.
    pub fn undo(&mut self, buffer: &mut Buffer)
        ensures
            final(self)@ == old(self)@,
            *final(buffer) == *old(buffer),
    {
    }

    /// Redoing an edit is not supported, for the reason given at
    /// [`BufferView::undo`]. Nothing changes.
    pub fn redo(&mut self, buffer: &mut Buffer)
        ensures
            final(self)@ == old(self)@,
            *final(buffer) == *old(buffer),
    {
    }

    /// The command that echoes the text of the lines of `buffer` from
    /// `lines.start` up to `lines.end`: the program `echo` with the
    /// arguments `-n` and that text. Running it is left to the caller.
    pub fn run_shell_command(&self, buffer: &Buffer, lines: Range<usize>) -> (command: ShellCommand)
        ensures
            command.program@ == "echo"@,
            command.args@.len() == 2,
            command.args@[0]@ == "-n"@,
            command.args@[1]@ == lines_text(buffer@, lines.start as nat, lines.end as nat),
    {
        let arg = if lines.start <= lines.end {
            let start = buffer.line_bound(lines.start);
            let end = buffer.line_bound(lines.end);
            proof {
                lemma_line_start_monotonic(buffer@, lines.start as nat, lines.end as nat);
            }
            buffer.slice(Range { start, end })
        } else {
            String::new()
        };
        let mut args: Vec<String> = Vec::new();
        args.push("-n".to_owned());
        args.push(arg);
        ShellCommand { program: "echo".to_owned(), args }
    }
}

} // verus!
