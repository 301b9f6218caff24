use vstd::prelude::*;

verus! {

/// The size of the visible viewport rectangle, in character cells.
#[derive(Clone, Copy)]
pub struct Boundaries {
    pub width: u16,
    pub height: u16,
}

impl Boundaries {
    /// A viewport is meaningful only when both sides are positive.
    pub open spec fn wf(self) -> bool {
        self.width > 0 && self.height > 0
    }

    pub fn new(width: u16, height: u16) -> (b: Boundaries)
        ensures
            b.width == width,
            b.height == height,
    {
        Boundaries { width, height }
    }
}

} // verus!
