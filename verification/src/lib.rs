//! The text buffer and cursor engine of a small editor.
//!
//! The text is held in a rope. A cursor ("point") is a range of character
//! offsets into a buffer; movement and editing commands keep it inside the
//! text it refers to.

pub mod path;
pub mod text;
pub mod rope;
pub mod buffer;
pub mod editor;
pub mod generation;
pub mod mouse_event;
pub mod markdown;
