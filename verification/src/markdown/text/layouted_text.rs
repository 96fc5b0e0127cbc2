//! What is selected in a text that has been laid out.

use std::ops::Range;
use vstd::prelude::*;

verus! {

/// A selection in a text: a range of bytes, not of characters.
#[derive(Debug)]
pub struct Selection {
    indices: Range<usize>,
}

impl View for Selection {
    type V = Range<usize>;

    /// The selected range.
    closed spec fn view(&self) -> Range<usize> {
        self.indices
    }
}

impl Clone for Selection {
    /// A selection of its own of the same range.
    fn clone(&self) -> (copy: Selection)
        ensures
            copy@ == self@,
    {
        Selection { indices: Range { start: self.indices.start, end: self.indices.end } }
    }
}

impl PartialEq for Selection {
    fn eq(&self, other: &Selection) -> (equal: bool) {
        self.indices.start == other.indices.start && self.indices.end == other.indices.end
    }
}

impl vstd::std_specs::cmp::PartialEqSpecImpl for Selection {
    open spec fn obeys_eq_spec() -> bool {
        true
    }

    open spec fn eq_spec(&self, other: &Selection) -> bool {
        self@.start == other@.start && self@.end == other@.end
    }
}

impl Eq for Selection {

}

impl Selection {
    /// The selection of the range `indices`.
    pub fn new(indices: Range<usize>) -> (selection: Selection)
        ensures
            selection@ == indices,
    {
        Selection { indices }
    }

    /// The selection that holds nothing, at the start of the text.
    pub fn empty() -> (selection: Selection)
        ensures
            selection@ == (Range { start: 0usize, end: 0usize }),
    {
        Selection { indices: Range { start: 0, end: 0 } }
    }

    /// The selected range.
    pub fn indices(&self) -> (indices: Range<usize>)
        ensures
            indices == self@,
    {
        Range { start: self.indices.start, end: self.indices.end }
    }
}

} // verus!
