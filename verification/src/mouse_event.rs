//! Clicks of the mouse.

use vstd::prelude::*;

verus! {

/// How often the mouse was clicked in one place in quick succession.
#[derive(Debug, Eq, PartialEq, PartialOrd, Ord, Structural)]
pub enum Click {
    Single,
    Double,
    Tripple,
}

impl Click {
    /// The click for a count of clicks: two make a double click and three
    /// a triple click; every other count is taken as a single click.
    pub fn from_count(count: u32) -> (click: Click)
        ensures
            click == match count {
                2u32 => Click::Double,
                3u32 => Click::Tripple,
                _ => Click::Single,
            },
    {
        match count {
            2 => Click::Double,
            3 => Click::Tripple,
            _ => Click::Single,
        }
    }
}

} // verus!
