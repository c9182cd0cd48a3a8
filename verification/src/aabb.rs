//! Axis-aligned bounding boxes.

use vstd::prelude::*;

use crate::geom::{Frac, Vec2};

verus! {

/// An axis-aligned box given by its two extreme corners.
///
/// Callers that build a box from two arbitrary points must canonicalize it
/// (componentwise min for `min`, componentwise max for `max`) before handing
/// it to the engine: well-formedness is a precondition, not an enforced
/// invariant.
#[derive(Clone, Copy, Debug, PartialEq, Eq, Structural)]
pub struct AABB {
    pub min: Vec2,
    pub max: Vec2,
}

impl AABB {
    /// Coordinates are bounded and the corners are ordered componentwise.
    pub open spec fn wf(self) -> bool {
        self.min.wf() && self.max.wf() && self.min.x <= self.max.x && self.min.y <= self.max.y
    }

    /// Strict (open-interval) overlap: boxes that merely touch along an edge
    /// or a corner do not overlap under this test.
    pub open spec fn strictly_overlaps(self, other: AABB) -> bool {
        self.min.x < other.max.x && self.max.x > other.min.x && self.min.y < other.max.y
            && self.max.y > other.min.y
    }

    /// Upper-left corner.
    pub fn lu(&self) -> (r: Vec2)
        ensures
            r == (Vec2 { x: self.min.x, y: self.max.y }),
    {
        Vec2 { x: self.min.x, y: self.max.y }
    }

    /// Upper-right corner.
    pub fn ru(&self) -> (r: Vec2)
        ensures
            r == (Vec2 { x: self.max.x, y: self.max.y }),
    {
        Vec2 { x: self.max.x, y: self.max.y }
    }

    /// Lower-right corner.
    pub fn rd(&self) -> (r: Vec2)
        ensures
            r == (Vec2 { x: self.max.x, y: self.min.y }),
    {
        Vec2 { x: self.max.x, y: self.min.y }
    }

    /// Lower-left corner.
    pub fn ld(&self) -> (r: Vec2)
        ensures
            r == (Vec2 { x: self.min.x, y: self.min.y }),
    {
        Vec2 { x: self.min.x, y: self.min.y }
    }

    /// Strict overlap test; edge-touching boxes are reported as disjoint.
    pub fn intersects(&self, other: AABB) -> (r: bool)
        ensures
            r == self.strictly_overlaps(other),
    {
        self.min.x < other.max.x && self.max.x > other.min.x && self.min.y < other.max.y
            && self.max.y > other.min.y
    }

    /// Center point, exact: each coordinate is `(min + max) / 2` as a rational.
    pub fn center(&self) -> (r: (Frac, Frac))
        requires
            self.wf(),
        ensures
            r.0 == (Frac { num: (self.min.x + self.max.x) as i128, den: 2 }),
            r.1 == (Frac { num: (self.min.y + self.max.y) as i128, den: 2 }),
    {
        (
            Frac { num: (self.min.x as i128) + (self.max.x as i128), den: 2 },
            Frac { num: (self.min.y as i128) + (self.max.y as i128), den: 2 },
        )
    }

    /// Smallest box containing both operands: componentwise min of the `min`
    /// corners, componentwise max of the `max` corners.
    pub fn union(self, rhs: AABB) -> (r: AABB)
        ensures
            r.min.x == if self.min.x <= rhs.min.x { self.min.x } else { rhs.min.x },
            r.min.y == if self.min.y <= rhs.min.y { self.min.y } else { rhs.min.y },
            r.max.x == if self.max.x >= rhs.max.x { self.max.x } else { rhs.max.x },
            r.max.y == if self.max.y >= rhs.max.y { self.max.y } else { rhs.max.y },
    {
        AABB {
            min: Vec2 {
                x: if self.min.x <= rhs.min.x { self.min.x } else { rhs.min.x },
                y: if self.min.y <= rhs.min.y { self.min.y } else { rhs.min.y },
            },
            max: Vec2 {
                x: if self.max.x >= rhs.max.x { self.max.x } else { rhs.max.x },
                y: if self.max.y >= rhs.max.y { self.max.y } else { rhs.max.y },
            },
        }
    }

    /// The box shifted by `rhs`.
    pub fn translate(self, rhs: Vec2) -> (r: AABB)
        requires
            self.min.wf(),
            self.max.wf(),
            rhs.wf(),
        ensures
            r.min.x == self.min.x + rhs.x,
            r.min.y == self.min.y + rhs.y,
            r.max.x == self.max.x + rhs.x,
            r.max.y == self.max.y + rhs.y,
    {
        AABB {
            min: Vec2 { x: self.min.x + rhs.x, y: self.min.y + rhs.y },
            max: Vec2 { x: self.max.x + rhs.x, y: self.max.y + rhs.y },
        }
    }
}

/// Boxes that share only a boundary edge do not strictly overlap.
///
/// Stated here for the vertical shared edge `a.max.x == b.min.x`; the other
/// three edges follow by the same symmetry of the strict test.
pub proof fn lemma_edge_touch_is_not_overlap(a: AABB, b: AABB)
    requires
        a.max.x == b.min.x,
    ensures
        !a.strictly_overlaps(b),
{
}

} // verus!
