//! The static collider variant: an axis-aligned box or a right-triangle slope.

use vstd::prelude::*;

use crate::aabb::AABB;
use crate::slope::Slope;

verus! {

/// A static obstacle: either a solid box or a slope.
#[derive(Clone, Copy, Debug, PartialEq, Eq, Structural)]
pub enum Col {
    AABB(AABB),
    Slope(Slope),
}

impl Col {
    /// The bounding box of the contained shape.
    pub open spec fn spec_bounding_box(self) -> AABB {
        match self {
            Col::AABB(x) => x,
            Col::Slope(x) => x.aabb,
        }
    }

    /// The collider's coordinates are bounded and its corners ordered.
    pub open spec fn wf(self) -> bool {
        self.spec_bounding_box().wf()
    }

    /// Bounding box used for broad-phase culling.
    pub fn bounding_box(&self) -> (r: AABB)
        ensures
            r == self.spec_bounding_box(),
    {
        match self {
            Col::AABB(x) => *x,
            Col::Slope(x) => x.bounding_box(),
        }
    }
}

} // verus!
