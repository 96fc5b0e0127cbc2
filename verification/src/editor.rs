//! A buffer that holds its own point.
//!
//! This [`Buffer`] is a text together with the one point at which it is
//! edited. Nothing else changes the text, so the point stays inside it:
//! every buffer that this module hands out is well formed, and every
//! command keeps it so.

use crate::buffer::{
    collapsed_at, delete_end, end_of_line, lines_text, loaded_text, moved_backward,
    moved_forward,
    start_of_line, stored_bytes, text_with_insert, text_without, BufferView, LoadError, Point,
    ShellCommand, WriteRequest,
};
use crate::text::{clamped_line, line_count, line_start};
use std::ops::Range;
use std::path::PathBuf;
use vstd::prelude::*;

verus! {

/// The text that [`Buffer::display`] gives: the text of the buffer with an
/// `X` put in at offset `at`.
pub open spec fn text_with_mark(text: Seq<char>, at: int) -> Seq<char> {
    text.subrange(0, at) + seq!['X'] + text.subrange(at, text.len() as int)
}

/// A text with the point at which it is edited, the path it is stored
/// under, if any, and a flag that is set while the text differs from what
/// was last saved.
#[derive(Debug)]
pub struct Buffer {
    store: crate::buffer::Buffer,
    view: BufferView,
}

impl View for Buffer {
    type V = Seq<char>;

    /// The characters of the buffer, in order.
    closed spec fn view(&self) -> Seq<char> {
        self.store@
    }
}

impl Buffer {
    /// The point at which the buffer is edited.
    pub closed spec fn spec_point(&self) -> Point {
        self.view@
    }

    /// The path that the buffer is stored under, if it has one.
    pub closed spec fn spec_path(&self) -> Option<PathBuf> {
        self.store.spec_path()
    }

    /// Whether the text has changed since the buffer was loaded or saved.
    pub closed spec fn spec_is_modified(&self) -> bool {
        self.store.spec_is_modified()
    }

    /// The buffer is well formed: the point lies inside the text, its start
    /// not after its end.
    pub open spec fn wf(&self) -> bool {
        self.spec_point().start <= self.spec_point().end <= self@.len()
    }

    /// Whether `other` differs from the buffer in its point at most.
    pub open spec fn same_text(&self, other: &Buffer) -> bool {
        &&& self@ == other@
        &&& self.spec_path() == other.spec_path()
        &&& self.spec_is_modified() == other.spec_is_modified()
    }

    /// An empty buffer without a path, its point at the start.
    pub fn new() -> (buffer: Buffer)
        ensures
            buffer.wf(),
            buffer@ == Seq::<char>::empty(),
            collapsed_at(buffer.spec_point(), 0),
            buffer.spec_path() is None,
            !buffer.spec_is_modified(),
    {
        let store = crate::buffer::Buffer::new();
        let view = BufferView::new(&store);
        Buffer { store, view }
    }

    /// The buffer for a file, its point at the start: `bytes` is what the
    /// file at `path` holds. The bytes must be text in UTF-8.
    pub fn load(path: PathBuf, bytes: &[u8]) -> (result: Result<Buffer, LoadError>)
        ensures
            result is Ok <==> loaded_text(bytes@) is Some,
            result matches Ok(buffer) ==> {
                &&& buffer.wf()
                &&& Some(buffer@) == loaded_text(bytes@)
                &&& collapsed_at(buffer.spec_point(), 0)
                &&& buffer.spec_path() == Some(path)
                &&& !buffer.spec_is_modified()
            },
            result matches Err(error) ==> error == LoadError::InvalidData,
    {
        match crate::buffer::Buffer::load(path, bytes) {
            Ok(store) => {
                let view = BufferView::new(&store);
                Ok(Buffer { store, view })
            },
            Err(error) => Err(error),
        }
    }

    /// The point at which the buffer is edited.
    pub fn point(&self) -> (point: Point)
        ensures
            point == self.spec_point(),
    {
        self.view.point()
    }

    /// The number of characters in the buffer.
    pub fn len_chars(&self) -> (len: usize)
        ensures
            len == self@.len(),
    {
        self.store.len_chars()
    }

    /// The number of lines in the buffer.
    pub fn len_lines(&self) -> (lines: usize)
        ensures
            lines == line_count(self@),
    {
        self.store.len_lines()
    }

    /// The length of the buffer's text in UTF-8.
    pub fn len_bytes(&self) -> (len: usize)
        ensures
            len == stored_bytes(self@).len(),
    {
        self.store.len_bytes()
    }

    /// The whole text.
    pub fn text(&self) -> (text: String)
        ensures
            text@ == self@,
    {
        self.store.text()
    }

    /// The path that the buffer is stored under, if it has one.
    pub fn path(&self) -> (path: Option<&PathBuf>)
        ensures
            path is Some <==> self.spec_path() is Some,
            path matches Some(p) ==> Some(*p) == self.spec_path(),
    {
        self.store.path()
    }

    /// Whether the text has changed since the buffer was loaded or saved.
    pub fn is_modified(&self) -> (modified: bool)
        ensures
            modified == self.spec_is_modified(),
    {
        self.store.is_modified()
    }

    /// What to write to store the buffer under `path`: the whole text,
    /// whether it has changed or not.
    pub fn save_as(&self, path: &PathBuf) -> (request: WriteRequest)
        ensures
            request.path == *path,
            request.bytes@ == stored_bytes(self@),
    {
        self.store.save_as(path)
    }

    /// What to write to save the buffer, if anything: nothing when the text
    /// has not changed or the buffer has no path, else the whole text under
    /// the buffer's path. Once it is written, [`Buffer::mark_saved`] records
    /// that.
    pub fn save(&self) -> (request: Option<WriteRequest>)
        ensures
            request is Some <==> self.spec_is_modified() && self.spec_path() is Some,
            request matches Some(write) ==> {
                &&& Some(write.path) == self.spec_path()
                &&& write.bytes@ == stored_bytes(self@)
            },
    {
        self.store.save()
    }

    /// Records that the text has been written to the buffer's path.
    pub fn mark_saved(&mut self)
        ensures
            !final(self).spec_is_modified(),
            final(self)@ == old(self)@,
            final(self).spec_point() == old(self).spec_point(),
            final(self).spec_path() == old(self).spec_path(),
            old(self).wf() ==> final(self).wf(),
    {
        self.store.mark_saved();
    }

    /// Moves the point past the character after its end, and drops the
    /// selection. At the end of the text the point stays as it is.
    pub fn move_point_forward_char(&mut self)
        ensures
            old(self).wf() ==> final(self).wf(),
            final(self).same_text(old(self)),
            moved_forward(old(self).spec_point(), final(self).spec_point(), old(self)@.len()),
            old(self).spec_point().end == old(self)@.len() ==> final(self).spec_point() == old(
                self,
            ).spec_point(),
    {
        self.view.move_point_forward_char(&self.store);
    }

    /// Moves the point before the character that precedes its start, and
    /// drops the selection. At the start of the text the point stays as it
    /// is.
    pub fn move_point_backward_char(&mut self)
        ensures
            old(self).wf() ==> final(self).wf(),
            final(self).same_text(old(self)),
            moved_backward(old(self).spec_point(), final(self).spec_point()),
            old(self).spec_point().start == 0 ==> final(self).spec_point() == old(
                self,
            ).spec_point(),
    {
        self.view.move_point_backward_char();
        assert(old(self).wf() ==> old(self).view.in_bounds(&self.store));
    }

    /// Moves the point to the end of the line that holds its end, as
    /// [`end_of_line`] defines it, and drops the selection.
    pub fn move_point_end_of_line(&mut self)
        ensures
            final(self).wf(),
            final(self).same_text(old(self)),
            collapsed_at(
                final(self).spec_point(),
                end_of_line(old(self)@, old(self).spec_point().end as int),
            ),
    {
        self.view.move_point_end_of_line(&self.store);
    }

    /// Moves the point to the start of the line that holds its start, and
    /// drops the selection.
    pub fn move_point_start_of_line(&mut self)
        ensures
            final(self).wf(),
            final(self).same_text(old(self)),
            collapsed_at(
                final(self).spec_point(),
                start_of_line(old(self)@, old(self).spec_point().start as int),
            ),
    {
        self.view.move_point_start_of_line(&self.store);
    }

    /// Moving the point to the next line is not supported: a wrapped line
    /// is shown as several, and which of them is the next one is not
    /// settled. Nothing changes.
    pub fn move_point_forward_line(&mut self)
        ensures
            *final(self) == *old(self),
    {
    }

    /// Moving the point to the previous line is not supported, for the
    /// reason given at [`Buffer::move_point_forward_line`]. Nothing changes.
    pub fn move_point_backward_line(&mut self)
        ensures
            *final(self) == *old(self),
    {
    }

    /// Moves the point to offset `char_idx`, or to the end of the text when
    /// that lies before it, and drops the selection.
    pub fn goto_char(&mut self, char_idx: usize)
        ensures
            final(self).wf(),
            final(self).same_text(old(self)),
            collapsed_at(
                final(self).spec_point(),
                if char_idx <= old(self)@.len() {
                    char_idx as int
                } else {
                    old(self)@.len() as int
                },
            ),
    {
        self.view.goto_char(&self.store, char_idx);
    }

    /// Moves the point to the start of line `line_idx`, or to the start of
    /// the last line when the text has no such line, and drops the
    /// selection.
    pub fn goto_line(&mut self, line_idx: usize)
        ensures
            final(self).wf(),
            final(self).same_text(old(self)),
            collapsed_at(
                final(self).spec_point(),
                line_start(old(self)@, clamped_line(old(self)@, line_idx as nat)) as int,
            ),
            line_count(old(self)@) == 1 ==> collapsed_at(final(self).spec_point(), 0),
    {
        self.view.goto_line(&self.store, line_idx);
    }

    /// Moves the point to the end of the text, and drops the selection.
    pub fn goto_end_of_buffer(&mut self)
        ensures
            final(self).wf(),
            final(self).same_text(old(self)),
            collapsed_at(final(self).spec_point(), old(self)@.len() as int),
    {
        self.view.goto_end_of_buffer(&self.store);
    }

    /// Moves the point to the start of the text, and drops the selection.
    pub fn goto_start_of_buffer(&mut self)
        ensures
            final(self).wf(),
            final(self).same_text(old(self)),
            collapsed_at(final(self).spec_point(), 0),
    {
        self.view.goto_start_of_buffer(&self.store);
    }

    /// Sets the point to the offsets from `point.start` up to `point.end`,
    /// moved back into the text where they lie past its end, and the start
    /// moved back to the end where it lies past that.
    pub fn set_point(&mut self, point: Point)
        ensures
            final(self).wf(),
            final(self).same_text(old(self)),
            final(self).spec_point().end == if point.end <= old(self)@.len() {
                point.end as int
            } else {
                old(self)@.len() as int
            },
            final(self).spec_point().start == if point.start <= final(self).spec_point().end {
                point.start
            } else {
                final(self).spec_point().end
            },
    {
        self.view.set_point(&self.store, point);
    }

    /// Searching forward is not supported. Nothing changes.
    pub fn search_forward(&mut self)
        ensures
            *final(self) == *old(self),
    {
    }

    /// Searching forward for a pattern is not supported. Nothing changes.
    pub fn search_forward_rx(&mut self)
        ensures
            *final(self) == *old(self),
    {
    }

    /// Searching backward is not supported. Nothing changes.
    pub fn search_backward(&mut self)
        ensures
            *final(self) == *old(self),
    {
    }

    /// Searching backward for a pattern is not supported. Nothing changes.
    pub fn search_backward_rx(&mut self)
        ensures
            *final(self) == *old(self),
    {
    }

    /// Puts `text` into the buffer at the start of the point, and moves the
    /// point past what was put in, with nothing selected.
    pub fn insert_at_point(&mut self, text: &str)
        requires
            old(self).wf(),
        ensures
            final(self).wf(),
            final(self)@ == text_with_insert(
                old(self)@,
                old(self).spec_point().start as int,
                text@,
            ),
            final(self)@.len() == old(self)@.len() + text@.len(),
            final(self).spec_is_modified(),
            final(self).spec_path() == old(self).spec_path(),
            collapsed_at(final(self).spec_point(), old(self).spec_point().start + text@.len()),
    {
        self.view.insert_at_point(&mut self.store, text);
    }

    /// Deletes forward: takes the selection out of the buffer, or, with
    /// nothing selected, the one character after the point, if there is
    /// one. The point is left where the deleted text started, with nothing
    /// selected.
    pub fn delete_at_point(&mut self)
        requires
            old(self).wf(),
        ensures
            final(self).wf(),
            final(self)@ == text_without(
                old(self)@,
                old(self).spec_point().start as int,
                delete_end(old(self).spec_point(), old(self)@.len()),
            ),
            final(self).spec_is_modified(),
            final(self).spec_path() == old(self).spec_path(),
            collapsed_at(final(self).spec_point(), old(self).spec_point().start as int),
    {
        self.view.delete_at_point(&mut self.store);
    }

    /// Undoing an edit is not supported: how edits are recorded is not
    /// settled. Nothing changes.
    pub fn undo(&mut self)
        ensures
            *final(self) == *old(self),
    {
    }

    /// Redoing an edit is not supported, for the reason given at
    /// [`Buffer::undo`]. Nothing changes.
    pub fn redo(&mut self)
        ensures
            *final(self) == *old(self),
    {
    }

    /// The command that echoes the text of the lines of the buffer from
    /// `lines.start` up to `lines.end`: the program `echo` with the
    /// arguments `-n` and that text. Running it is left to the caller.
    pub fn run_shell_command(&self, lines: Range<usize>) -> (command: ShellCommand)
        ensures
            command.program@ == "echo"@,
            command.args@.len() == 2,
            command.args@[0]@ == "-n"@,
            command.args@[1]@ == lines_text(self@, lines.start as nat, lines.end as nat),
    {
        self.view.run_shell_command(&self.store, lines)
    }

    /// The text of the buffer with an `X` at the end of the point, or at
    /// the end of the text should the point lie past it.
    pub fn display(&self) -> (shown: String)
        ensures
            shown@ == text_with_mark(
                self@,
                if self.spec_point().end <= self@.len() {
                    self.spec_point().end as int
                } else {
                    self@.len() as int
                },
            ),
    {
        let len = self.store.len_chars();
        let end = self.view.point().end;
        let idx = if end <= len { end } else { len };
        let mut shown = self.store.slice(Range { start: 0, end: idx });
        shown.append("X");
        let right = self.store.slice(Range { start: idx, end: len });
        shown.append(right.as_str());
        proof {
            reveal_strlit("X");
            assert("X"@ == seq!['X']);
        }
        shown
    }
}

} // verus!
