//! The styles that parts of a text are marked with.

use vstd::prelude::*;

verus! {

/// A part of a text that is set in a style: the bytes from `start_pos` up
/// to `end_pos`.
#[derive(Clone, Copy, Debug, PartialEq, Eq, Structural)]
pub struct TextMarker {
    pub start_pos: usize,
    pub end_pos: usize,
    pub kind: MarkerKind,
}

/// The styles that a part of a text can be set in.
#[derive(Clone, Copy, Debug, PartialEq, Eq, Hash, Structural)]
pub enum MarkerKind {
    Bold,
    Italic,
    Strikethrough,
    InlineCode,
}

} // verus!
