//! A counter that tells whether something has changed since it was last
//! looked at.

use vstd::prelude::*;

verus! {

/// The generation of a value that changes over time. Two generations are
/// only ever compared, so the counter may wrap around.
#[derive(PartialEq, Eq, Structural, Clone, Copy, Debug)]
pub struct Generation(u32);

impl View for Generation {
    type V = u32;

    /// The number of the generation.
    closed spec fn view(&self) -> u32 {
        self.0
    }
}

impl Default for Generation {
    /// The first generation.
    fn default() -> (generation: Generation)
        ensures
            generation@ == 0,
    {
        Generation(0)
    }
}

/// The number of the generation after `number`: one more, and zero after
/// the largest.
pub open spec fn next_generation(number: u32) -> u32 {
    if number == u32::MAX {
        0
    } else {
        (number + 1) as u32
    }
}

impl Generation {
    /// Makes the generation another than it is: it goes on to the next.
    pub fn nudge(&mut self)
        ensures
            final(self)@ == next_generation(old(self)@),
            final(self)@ != old(self)@,
    {
        self.0 = self.0.wrapping_add(1);
    }
}

} // verus!
