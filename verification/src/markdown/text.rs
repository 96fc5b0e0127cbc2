//! The text of a markdown block and what is marked in it.

pub mod layouted_text;
pub mod styles;

use std::ops::Range;
use vstd::prelude::*;

verus! {

/// A link in a text: the address it leads to, and the range of the text,
/// in bytes, that shows it.
#[derive(Debug)]
pub struct Link {
    pub url: String,
    pub index_range: Range<usize>,
}

/// What a link holds, as plain values.
pub struct LinkView {
    pub url: Seq<char>,
    pub index_range: Range<usize>,
}

impl View for Link {
    type V = LinkView;

    open spec fn view(&self) -> LinkView {
        LinkView { url: self.url@, index_range: self.index_range }
    }
}

impl Clone for Link {
    /// A link of its own to the same address, shown by the same range.
    fn clone(&self) -> (copy: Link)
        ensures
            copy@ == self@,
    {
        Link {
            url: self.url.clone(),
            index_range: Range { start: self.index_range.start, end: self.index_range.end },
        }
    }
}

impl Link {
    /// The link to `url` that the range `index_range` of the text shows.
    pub fn new(url: String, index_range: Range<usize>) -> (link: Link)
        ensures
            link.url == url,
            link.index_range == index_range,
    {
        Self { url, index_range }
    }
}

} // verus!
