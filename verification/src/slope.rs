//! Right-triangle slopes: a box with one diagonal corner cut off.

use vstd::prelude::*;

use crate::aabb::AABB;
use crate::geom::Vec2;
use crate::shapecast::{HitType, Segment};

verus! {

/// Which diagonal direction the slope's outward normal points toward.
///
/// The triangle's right-angle corner is the one opposite the named
/// direction; the hypotenuse is the diagonal cut between the two remaining
/// corners. `LU` for instance names the slope whose hypotenuse runs from the
/// lower-left corner to the upper-right corner, with the upper-left corner
/// empty.
#[derive(Clone, Copy, Debug, PartialEq, Eq, Structural)]
pub enum SlopeNormal {
    LU,
    RU,
    RD,
    LD,
}

impl SlopeNormal {
    /// The next orientation in clockwise order.
    pub open spec fn spec_next(self) -> SlopeNormal {
        match self {
            SlopeNormal::LU => SlopeNormal::RU,
            SlopeNormal::RU => SlopeNormal::RD,
            SlopeNormal::RD => SlopeNormal::LD,
            SlopeNormal::LD => SlopeNormal::LU,
        }
    }

    /// Rotate to the next orientation in clockwise order.
    pub fn next(&mut self)
        ensures
            *final(self) == old(self).spec_next(),
    {
        match self {
            SlopeNormal::LU => *self = SlopeNormal::RU,
            SlopeNormal::RU => *self = SlopeNormal::RD,
            SlopeNormal::RD => *self = SlopeNormal::LD,
            SlopeNormal::LD => *self = SlopeNormal::LU,
        }
    }
}

/// A right-triangle collider: the part of `aabb` on the solid side of the
/// diagonal named by `normal`.
#[derive(Clone, Copy, Debug, PartialEq, Eq, Structural)]
pub struct Slope {
    pub aabb: AABB,
    pub normal: SlopeNormal,
}

impl Slope {
    /// Horizontal extent of the underlying box.
    pub open spec fn width(self) -> int {
        self.aabb.max.x - self.aabb.min.x
    }

    /// Vertical extent of the underlying box.
    pub open spec fn height(self) -> int {
        self.aabb.max.y - self.aabb.min.y
    }

    /// The two hit types of the slope's flat (non-hypotenuse) faces.
    pub open spec fn spec_straight_hits(self) -> (HitType, HitType) {
        match self.normal {
            SlopeNormal::LU => (HitType::UtD, HitType::LtR),
            SlopeNormal::RU => (HitType::UtD, HitType::RtL),
            SlopeNormal::RD => (HitType::DtU, HitType::RtL),
            SlopeNormal::LD => (HitType::DtU, HitType::LtR),
        }
    }

    /// Horizontal component of the outward normal direction of the
    /// hypotenuse: the sign of the orientation's horizontal half, scaled by
    /// the box height so that the direction is exact for any aspect ratio.
    pub open spec fn normal_dir_x(self) -> int {
        match self.normal {
            SlopeNormal::LU => -self.height(),
            SlopeNormal::RU => self.height(),
            SlopeNormal::RD => self.height(),
            SlopeNormal::LD => -self.height(),
        }
    }

    /// Vertical component of the outward normal direction of the hypotenuse.
    pub open spec fn normal_dir_y(self) -> int {
        match self.normal {
            SlopeNormal::LU => self.width(),
            SlopeNormal::RU => self.width(),
            SlopeNormal::RD => -self.width(),
            SlopeNormal::LD => -self.width(),
        }
    }

    /// The hypotenuse as a segment between the two corners it spans.
    pub open spec fn spec_slope_segment(self) -> Segment {
        match self.normal {
            SlopeNormal::LU | SlopeNormal::RD => Segment {
                start: Vec2 { x: self.aabb.min.x, y: self.aabb.min.y },
                end: Vec2 { x: self.aabb.max.x, y: self.aabb.max.y },
            },
            SlopeNormal::RU | SlopeNormal::LD => Segment {
                start: Vec2 { x: self.aabb.max.x, y: self.aabb.min.y },
                end: Vec2 { x: self.aabb.min.x, y: self.aabb.max.y },
            },
        }
    }

    /// The slope's bounding box is its underlying box.
    pub fn bounding_box(&self) -> (r: AABB)
        ensures
            r == self.aabb,
    {
        self.aabb
    }

    /// The two hit types that mean the moving box touched a flat face of the
    /// slope and never reached the hypotenuse.
    pub fn straight_hits(&self) -> (r: (HitType, HitType))
        ensures
            r == self.spec_straight_hits(),
    {
        match self.normal {
            SlopeNormal::LU => (HitType::UtD, HitType::LtR),
            SlopeNormal::RU => (HitType::UtD, HitType::RtL),
            SlopeNormal::RD => (HitType::DtU, HitType::RtL),
            SlopeNormal::LD => (HitType::DtU, HitType::LtR),
        }
    }

    /// Outward normal direction of the hypotenuse.
    ///
    /// The vector is exact in direction but not unit length: its components
    /// are the box height and width with the orientation's signs, which is
    /// the exact direction the unit normal of the diagonal points in. Callers
    /// that need a unit vector normalize it themselves.
    pub fn slope_vec_normal(&self) -> (r: Vec2)
        requires
            self.aabb.wf(),
        ensures
            r.x == self.normal_dir_x(),
            r.y == self.normal_dir_y(),
    {
        let w = self.aabb.max.x - self.aabb.min.x;
        let h = self.aabb.max.y - self.aabb.min.y;
        match self.normal {
            SlopeNormal::LU => Vec2 { x: -h, y: w },
            SlopeNormal::RU => Vec2 { x: h, y: w },
            SlopeNormal::RD => Vec2 { x: h, y: -w },
            SlopeNormal::LD => Vec2 { x: -h, y: -w },
        }
    }

    /// The hypotenuse segment.
    pub fn slope_segment(&self) -> (r: Segment)
        ensures
            r == self.spec_slope_segment(),
    {
        match self.normal {
            SlopeNormal::LU | SlopeNormal::RD => Segment { start: self.aabb.ld(), end: self.aabb.ru() },
            SlopeNormal::RU | SlopeNormal::LD => Segment { start: self.aabb.rd(), end: self.aabb.lu() },
        }
    }
}

/// The normal direction is perpendicular to the hypotenuse segment.
pub proof fn lemma_normal_perpendicular_to_hypotenuse(s: Slope)
    ensures
        s.normal_dir_x() * (s.spec_slope_segment().end.x - s.spec_slope_segment().start.x)
            + s.normal_dir_y() * (s.spec_slope_segment().end.y - s.spec_slope_segment().start.y)
            == 0,
{
    let w = s.width();
    let h = s.height();
    // One product identity per orientation; the segment's direction is
    // `(w, h)` for `LU`/`RD` and `(-w, h)` for `RU`/`LD`.
    assert((-h) * w + w * h == 0) by (nonlinear_arith);
    assert(h * (-w) + w * h == 0) by (nonlinear_arith);
    assert(h * w + (-w) * h == 0) by (nonlinear_arith);
    assert((-h) * (-w) + (-w) * h == 0) by (nonlinear_arith);
}

} // verus!
