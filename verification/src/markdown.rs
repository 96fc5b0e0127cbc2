//! What a markdown document is made of, as far as it does not depend on
//! how it is drawn.

pub mod elements;
pub mod parser;
pub mod text;

use std::path::PathBuf;
use vstd::prelude::*;

verus! {

/// The view that shows the markdown document stored under a path.
pub struct MarkdownView {
    path: PathBuf,
}

impl View for MarkdownView {
    type V = PathBuf;

    /// The path of the document that the view shows.
    closed spec fn view(&self) -> PathBuf {
        self.path
    }
}

impl MarkdownView {
    /// The path of the document that the view shows.
    pub fn path(&self) -> (path: &PathBuf)
        ensures
            *path == self@,
    {
        &self.path
    }
}

/// The view that shows the markdown document stored under `path`.
pub fn markdown_view(path: PathBuf) -> (view: MarkdownView)
    ensures
        view@ == path,
{
    MarkdownView { path }
}

} // verus!
