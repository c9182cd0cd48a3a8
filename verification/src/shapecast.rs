//! The shapecast engine: broad-phase rejection, the swept box-vs-box slab
//! test, and the slope narrow phase with exact hypotenuse intersection.

use vstd::prelude::*;

use crate::aabb::AABB;
use crate::col::Col;
use crate::geom::{abs_i, lemma_mul_bound, Frac, Vec2, COORD_LIMIT};
use crate::slope::{Slope, SlopeNormal};

verus! {

/// How the moving box first touched the obstacle.
///
/// The four directional tags name the face of the obstacle that was hit by
/// the direction it faces: `LtR` is the face looking left-to-right (hit while
/// moving left, normal pointing right), and so on. `Slope` is a hypotenuse
/// contact and `Inside` a strict overlap already present before any motion.
#[derive(Clone, Copy, Debug, PartialEq, Eq, Structural)]
pub enum HitType {
    LtR,
    RtL,
    UtD,
    DtU,
    Slope,
    Inside,
}

/// The outcome of a shapecast: what was hit, the outward normal of the
/// surface, and how far along the displacement the contact happens.
///
/// `normal` is exact in direction; it is unit length for the four axis faces
/// and zero for `Inside`, while for `Slope` hits it carries the slope's
/// outward direction unnormalized. `distance` is the exact fraction of the
/// displacement vector travelled until contact: the Euclidean distance is
/// that fraction of the displacement's length.
#[derive(Clone, Copy, Debug, PartialEq, Eq, Structural)]
pub struct ShapecastResult {
    /// Hit type.
    pub hit_type: HitType,
    /// Hit normal direction.
    pub normal: Vec2,
    /// Hit distance as a fraction of the displacement.
    pub distance: Frac,
}

/// The result reported when the moving box already strictly overlaps the
/// static box: an `Inside` hit with zero normal at zero distance.
pub open spec fn inside_result() -> ShapecastResult {
    ShapecastResult {
        hit_type: HitType::Inside,
        normal: Vec2 { x: 0, y: 0 },
        distance: Frac { num: 0, den: 1 },
    }
}

/// The unit normal belonging to each directional hit type; zero for the
/// non-directional tags.
pub open spec fn hit_normal(t: HitType) -> Vec2 {
    match t {
        HitType::LtR => Vec2 { x: 1, y: 0 },
        HitType::RtL => Vec2 { x: -1i64, y: 0 },
        HitType::UtD => Vec2 { x: 0, y: -1i64 },
        HitType::DtU => Vec2 { x: 0, y: 1 },
        HitType::Slope => Vec2 { x: 0, y: 0 },
        HitType::Inside => Vec2 { x: 0, y: 0 },
    }
}

// ---------------------------------------------------------------------------
// The swept box-vs-box slab test, as mathematics.
//
// Travel along the displacement is measured as an exact rational fraction of
// the displacement vector. An axis whose displacement component is zero
// cannot begin or end contact and is excluded from the entry and exit
// comparisons; `x_active`/`y_active` say which axes take part.
// ---------------------------------------------------------------------------

/// Motion along x can cause or end contact.
pub open spec fn x_active(d: Vec2) -> bool {
    d.x != 0
}

/// Motion along y can cause or end contact.
pub open spec fn y_active(d: Vec2) -> bool {
    d.y != 0
}

/// Denominator of every x-axis fraction: the displacement magnitude on x.
pub open spec fn den_x(d: Vec2) -> int {
    abs_i(d.x as int)
}

/// Denominator of every y-axis fraction: the displacement magnitude on y.
pub open spec fn den_y(d: Vec2) -> int {
    abs_i(d.y as int)
}

/// Signed distance to travel on x before contact can begin there, counted
/// positive in the direction of motion: the numerator of the x entry
/// fraction over `den_x`.
pub open spec fn entry_num_x(dy: AABB, st: AABB, d: Vec2) -> int {
    if d.x > 0 {
        st.min.x - dy.max.x
    } else {
        dy.min.x - st.max.x
    }
}

/// Numerator of the y entry fraction over `den_y`.
pub open spec fn entry_num_y(dy: AABB, st: AABB, d: Vec2) -> int {
    if d.y > 0 {
        st.min.y - dy.max.y
    } else {
        dy.min.y - st.max.y
    }
}

/// Numerator of the x exit fraction over `den_x`: travel on x until contact
/// ends there.
pub open spec fn exit_num_x(dy: AABB, st: AABB, d: Vec2) -> int {
    if d.x > 0 {
        st.max.x - dy.min.x
    } else {
        dy.max.x - st.min.x
    }
}

/// Numerator of the y exit fraction over `den_y`.
pub open spec fn exit_num_y(dy: AABB, st: AABB, d: Vec2) -> int {
    if d.y > 0 {
        st.max.y - dy.min.y
    } else {
        dy.max.y - st.min.y
    }
}

/// The x axis is the blocking axis: it is active and its entry fraction is
/// strictly the later one (an inactive y axis never constrains entry).
pub open spec fn x_blocks(dy: AABB, st: AABB, d: Vec2) -> bool {
    x_active(d) && (!y_active(d) || entry_num_x(dy, st, d) * den_y(d) > entry_num_y(dy, st, d)
        * den_x(d))
}

/// Numerator of the overall entry fraction: the blocking axis's entry.
pub open spec fn entry_num(dy: AABB, st: AABB, d: Vec2) -> int {
    if x_blocks(dy, st, d) {
        entry_num_x(dy, st, d)
    } else {
        entry_num_y(dy, st, d)
    }
}

/// Denominator of the overall entry fraction.
pub open spec fn entry_den(dy: AABB, st: AABB, d: Vec2) -> int {
    if x_blocks(dy, st, d) {
        den_x(d)
    } else {
        den_y(d)
    }
}

/// Some active axis separates no later than the overall entry: the exit
/// fraction (the minimum over active axes) is at or before the entry
/// fraction, so no real 2D overlap ever forms.
pub open spec fn exit_not_after_entry(dy: AABB, st: AABB, d: Vec2) -> bool {
    (x_active(d) && exit_num_x(dy, st, d) * entry_den(dy, st, d) <= entry_num(dy, st, d) * den_x(
        d,
    )) || (y_active(d) && exit_num_y(dy, st, d) * entry_den(dy, st, d) <= entry_num(dy, st, d)
        * den_y(d))
}

/// The slab test reports a swept contact: some axis is active, the overall
/// entry fraction lies in `[0, 1]`, and the exit comes strictly after the
/// entry.
pub open spec fn slab_hit(dy: AABB, st: AABB, d: Vec2) -> bool {
    (x_active(d) || y_active(d)) && 0 <= entry_num(dy, st, d) && entry_num(dy, st, d) <= entry_den(
        dy,
        st,
        d,
    ) && !exit_not_after_entry(dy, st, d)
}

/// The directional hit type of a slab contact: the blocking axis, facing
/// against the direction of travel on that axis.
pub open spec fn slab_hit_type(dy: AABB, st: AABB, d: Vec2) -> HitType {
    if x_blocks(dy, st, d) {
        if d.x > 0 {
            HitType::RtL
        } else {
            HitType::LtR
        }
    } else {
        if d.y > 0 {
            HitType::UtD
        } else {
            HitType::DtU
        }
    }
}

/// The box-vs-box cast finds a contact: an initial strict overlap or a swept
/// slab contact.
pub open spec fn box_hit_exists(dy: AABB, st: AABB, d: Vec2) -> bool {
    dy.strictly_overlaps(st) || slab_hit(dy, st, d)
}

/// `h` is the box-vs-box cast's answer: the `Inside` result on an initial
/// strict overlap, else the slab contact's hit type, its unit normal, and
/// the entry fraction as the distance.
pub open spec fn box_result(dy: AABB, st: AABB, d: Vec2, h: ShapecastResult) -> bool {
    if dy.strictly_overlaps(st) {
        h == inside_result()
    } else {
        slab_hit(dy, st, d) && h.hit_type == slab_hit_type(dy, st, d) && h.normal == hit_normal(
            slab_hit_type(dy, st, d),
        ) && h.distance.num == entry_num(dy, st, d) && h.distance.den == entry_den(dy, st, d)
    }
}

/// Swept cast of a moving box against a static box.
///
/// Reports `Inside` on an initial strict overlap; otherwise runs the slab
/// test and reports the blocked face and the exact entry fraction, or `None`
/// when the path never makes contact.
pub fn aabb_x_aabb(dy: AABB, st: AABB, d: Vec2) -> (r: Option<ShapecastResult>)
    requires
        dy.wf(),
        st.wf(),
        d.wf(),
    ensures
        match r {
            Some(h) => box_result(dy, st, d, h) && h.distance.in_unit(),
            None => !box_hit_exists(dy, st, d),
        },
{
    // A strict overlap before any motion wins immediately.
    if dy.intersects(st) {
        return Some(
            ShapecastResult {
                hit_type: HitType::Inside,
                normal: Vec2 { x: 0, y: 0 },
                distance: Frac { num: 0, den: 1 },
            },
        );
    }
    let x_act = d.x != 0;
    let y_act = d.y != 0;
    if !x_act && !y_act {
        // No motion at all: entry never happens.
        return None;
    }
    // Entry and exit numerators, each over the magnitude of its axis's
    // displacement, counted positive in the direction of motion.
    let enx = if d.x > 0 { st.min.x - dy.max.x } else { dy.min.x - st.max.x };
    let eny = if d.y > 0 { st.min.y - dy.max.y } else { dy.min.y - st.max.y };
    let exx = if d.x > 0 { st.max.x - dy.min.x } else { dy.max.x - st.min.x };
    let exy = if d.y > 0 { st.max.y - dy.min.y } else { dy.max.y - st.min.y };
    let dxa = if d.x >= 0 { d.x } else { -d.x };
    let dya = if d.y >= 0 { d.y } else { -d.y };
    proof {
        lemma_mul_bound(enx as int, dya as int, 2 * COORD_LIMIT as int, COORD_LIMIT as int);
        lemma_mul_bound(eny as int, dxa as int, 2 * COORD_LIMIT as int, COORD_LIMIT as int);
    }
    // Overall entry is the later of the active axes' entries; an inactive
    // axis never constrains it.
    let xb = x_act && (!y_act || enx * dya > eny * dxa);
    let en = if xb { enx } else { eny };
    let ed = if xb { dxa } else { dya };
    if en < 0 || en > ed {
        // Contact would begin before the move starts or after it ends.
        return None;
    }
    proof {
        lemma_mul_bound(exx as int, ed as int, 2 * COORD_LIMIT as int, COORD_LIMIT as int);
        lemma_mul_bound(exy as int, ed as int, 2 * COORD_LIMIT as int, COORD_LIMIT as int);
        lemma_mul_bound(en as int, dxa as int, 2 * COORD_LIMIT as int, COORD_LIMIT as int);
        lemma_mul_bound(en as int, dya as int, 2 * COORD_LIMIT as int, COORD_LIMIT as int);
    }
    // Contact ends on the first axis to separate; if that is no later than
    // the entry, no real 2D overlap ever forms.
    if x_act && exx * ed <= en * dxa {
        return None;
    }
    if y_act && exy * ed <= en * dya {
        return None;
    }
    let hit_type = if xb {
        if d.x > 0 {
            HitType::RtL
        } else {
            HitType::LtR
        }
    } else {
        if d.y > 0 {
            HitType::UtD
        } else {
            HitType::DtU
        }
    };
    let normal = match hit_type {
        HitType::LtR => Vec2 { x: 1, y: 0 },
        HitType::RtL => Vec2 { x: -1, y: 0 },
        HitType::UtD => Vec2 { x: 0, y: -1 },
        HitType::DtU => Vec2 { x: 0, y: 1 },
        HitType::Slope => Vec2 { x: 0, y: 0 },
        HitType::Inside => Vec2 { x: 0, y: 0 },
    };
    Some(ShapecastResult { hit_type, normal, distance: Frac { num: en as i128, den: ed as i128 } })
}

// ---------------------------------------------------------------------------
// Exact 2D segment intersection.
// ---------------------------------------------------------------------------

/// A line segment between two points; a transient value used only during
/// intersection queries.
#[derive(Clone, Copy, Debug, PartialEq, Eq, Structural)]
pub struct Segment {
    pub start: Vec2,
    pub end: Vec2,
}

/// `n / d` lies in the unit interval, for a nonzero denominator of either
/// sign.
pub open spec fn ratio_in_unit(n: int, d: int) -> bool {
    if d > 0 {
        0 <= n <= d
    } else {
        d <= n <= 0
    }
}

/// The cross-product determinant of the two segments' direction vectors;
/// zero exactly when they are parallel (collinear included).
pub open spec fn seg_det(s: Segment, o: Segment) -> int {
    (o.end.x - o.start.x) * (s.end.y - s.start.y) - (o.end.y - o.start.y) * (s.end.x - s.start.x)
}

/// Cramer's-rule numerator of the crossing's parameter along `s`, over
/// `seg_det`.
pub open spec fn seg_alpha_raw(s: Segment, o: Segment) -> int {
    (o.end.x - o.start.x) * (o.start.y - s.start.y) - (o.end.y - o.start.y) * (o.start.x
        - s.start.x)
}

/// Cramer's-rule numerator of the crossing's parameter along `o`, over
/// `seg_det`.
pub open spec fn seg_beta_raw(s: Segment, o: Segment) -> int {
    (s.end.x - s.start.x) * (o.start.y - s.start.y) - (s.end.y - s.start.y) * (o.start.x
        - s.start.x)
}

/// The segments cross: they are not parallel and the crossing's parameters
/// along both lie in `[0, 1]`.
pub open spec fn seg_hit(s: Segment, o: Segment) -> bool {
    seg_det(s, o) != 0 && ratio_in_unit(seg_alpha_raw(s, o), seg_det(s, o)) && ratio_in_unit(
        seg_beta_raw(s, o),
        seg_det(s, o),
    )
}

/// Numerator of the crossing's parameter along `s`, normalized to a positive
/// denominator.
pub open spec fn seg_alpha_num(s: Segment, o: Segment) -> int {
    if seg_det(s, o) > 0 {
        seg_alpha_raw(s, o)
    } else {
        -seg_alpha_raw(s, o)
    }
}

/// Denominator of the crossing's parameter, normalized positive.
pub open spec fn seg_alpha_den(s: Segment, o: Segment) -> int {
    abs_i(seg_det(s, o))
}

impl Segment {
    /// Both endpoints lie within twice the coordinate bound, as the swept
    /// corner of a well-formed box does.
    pub open spec fn in_range(self) -> bool {
        -2 * COORD_LIMIT <= self.start.x <= 2 * COORD_LIMIT && -2 * COORD_LIMIT <= self.start.y
            <= 2 * COORD_LIMIT && -2 * COORD_LIMIT <= self.end.x <= 2 * COORD_LIMIT && -2
            * COORD_LIMIT <= self.end.y <= 2 * COORD_LIMIT
    }

    /// Where this segment crosses `other`, as the exact parameter along
    /// `self`: the crossing point is `start + (end - start) * r` for the
    /// returned fraction `r`. Parallel segments (collinear ones included)
    /// yield `None`, as do crossings of the carrying lines outside either
    /// segment.
    pub fn intersection(&self, other: &Segment) -> (r: Option<Frac>)
        requires
            self.in_range(),
            other.in_range(),
        ensures
            match r {
                Some(f) => seg_hit(*self, *other) && f.num == seg_alpha_num(*self, *other)
                    && f.den == seg_alpha_den(*self, *other) && f.in_unit(),
                None => !seg_hit(*self, *other),
            },
    {
        let sdx = self.end.x - self.start.x;
        let sdy = self.end.y - self.start.y;
        let odx = other.end.x - other.start.x;
        let ody = other.end.y - other.start.y;
        let rely = other.start.y - self.start.y;
        let relx = other.start.x - self.start.x;
        proof {
            lemma_mul_bound(odx as int, sdy as int, 4 * COORD_LIMIT as int, 4 * COORD_LIMIT as int);
            lemma_mul_bound(ody as int, sdx as int, 4 * COORD_LIMIT as int, 4 * COORD_LIMIT as int);
            lemma_mul_bound(odx as int, rely as int, 4 * COORD_LIMIT as int, 4 * COORD_LIMIT as int);
            lemma_mul_bound(ody as int, relx as int, 4 * COORD_LIMIT as int, 4 * COORD_LIMIT as int);
            lemma_mul_bound(sdx as int, rely as int, 4 * COORD_LIMIT as int, 4 * COORD_LIMIT as int);
            lemma_mul_bound(sdy as int, relx as int, 4 * COORD_LIMIT as int, 4 * COORD_LIMIT as int);
        }
        let b = odx * sdy - ody * sdx;
        if b == 0 {
            // Parallel carrying lines never cross.
            return None;
        }
        let a = odx * rely - ody * relx;
        let c = sdx * rely - sdy * relx;
        // Normalize to a positive denominator so the unit-interval tests
        // read the same for either winding.
        let an = if b > 0 { a } else { -a };
        let cn = if b > 0 { c } else { -c };
        let bn = if b > 0 { b } else { -b };
        if an < 0 || an > bn || cn < 0 || cn > bn {
            return None;
        }
        Some(Frac { num: an as i128, den: bn as i128 })
    }
}

// ---------------------------------------------------------------------------
// The slope narrow phase.
// ---------------------------------------------------------------------------

/// Tip occlusion: with the moving box placed at the bounding-box contact
/// (`dy` shifted by `d` scaled by `num / den`), the contact lies beyond the
/// triangle's empty corner, so the box slides past without touching the
/// hypotenuse. A fixed per-orientation, per-hit-type comparison of one
/// coordinate of the shifted box against the slope's bounding box, written
/// with the shift kept exact: every comparison is multiplied through by the
/// positive denominator.
pub open spec fn spec_tipcheck(
    dy: AABB,
    d: Vec2,
    st: Slope,
    t: HitType,
    num: int,
    den: int,
) -> bool {
    match st.normal {
        SlopeNormal::LU => match t {
            HitType::RtL => dy.min.y * den + d.y * num < st.aabb.min.y * den,
            HitType::DtU => dy.max.x * den + d.x * num > st.aabb.max.x * den,
            _ => false,
        },
        SlopeNormal::RU => match t {
            HitType::LtR => dy.min.y * den + d.y * num < st.aabb.min.y * den,
            HitType::DtU => dy.min.x * den + d.x * num < st.aabb.min.x * den,
            _ => false,
        },
        SlopeNormal::RD => match t {
            HitType::LtR => dy.max.y * den + d.y * num > st.aabb.max.y * den,
            HitType::UtD => dy.min.x * den + d.x * num < st.aabb.min.x * den,
            _ => false,
        },
        SlopeNormal::LD => match t {
            HitType::RtL => dy.max.y * den + d.y * num > st.aabb.max.y * den,
            HitType::UtD => dy.max.x * den + d.x * num > st.aabb.max.x * den,
            _ => false,
        },
    }
}

fn tipcheck(dy: AABB, d: Vec2, st: Slope, hit_type: HitType, num: i128, den: i128) -> (r: bool)
    requires
        dy.wf(),
        st.aabb.wf(),
        d.wf(),
        0 < den <= COORD_LIMIT,
        0 <= num <= den,
    ensures
        r == spec_tipcheck(dy, d, st, hit_type, num as int, den as int),
{
    proof {
        lemma_mul_bound(dy.min.x as int, den as int, COORD_LIMIT as int, COORD_LIMIT as int);
        lemma_mul_bound(dy.min.y as int, den as int, COORD_LIMIT as int, COORD_LIMIT as int);
        lemma_mul_bound(dy.max.x as int, den as int, COORD_LIMIT as int, COORD_LIMIT as int);
        lemma_mul_bound(dy.max.y as int, den as int, COORD_LIMIT as int, COORD_LIMIT as int);
        lemma_mul_bound(st.aabb.min.x as int, den as int, COORD_LIMIT as int, COORD_LIMIT as int);
        lemma_mul_bound(st.aabb.min.y as int, den as int, COORD_LIMIT as int, COORD_LIMIT as int);
        lemma_mul_bound(st.aabb.max.x as int, den as int, COORD_LIMIT as int, COORD_LIMIT as int);
        lemma_mul_bound(st.aabb.max.y as int, den as int, COORD_LIMIT as int, COORD_LIMIT as int);
        lemma_mul_bound(d.x as int, num as int, COORD_LIMIT as int, COORD_LIMIT as int);
        lemma_mul_bound(d.y as int, num as int, COORD_LIMIT as int, COORD_LIMIT as int);
    }
    let shift_x = (d.x as i128) * num;
    let shift_y = (d.y as i128) * num;
    match st.normal {
        SlopeNormal::LU => match hit_type {
            HitType::RtL => (dy.min.y as i128) * den + shift_y < (st.aabb.min.y as i128) * den,
            HitType::DtU => (dy.max.x as i128) * den + shift_x > (st.aabb.max.x as i128) * den,
            _ => false,
        },
        SlopeNormal::RU => match hit_type {
            HitType::LtR => (dy.min.y as i128) * den + shift_y < (st.aabb.min.y as i128) * den,
            HitType::DtU => (dy.min.x as i128) * den + shift_x < (st.aabb.min.x as i128) * den,
            _ => false,
        },
        SlopeNormal::RD => match hit_type {
            HitType::LtR => (dy.max.y as i128) * den + shift_y > (st.aabb.max.y as i128) * den,
            HitType::UtD => (dy.min.x as i128) * den + shift_x < (st.aabb.min.x as i128) * den,
            _ => false,
        },
        SlopeNormal::LD => match hit_type {
            HitType::RtL => (dy.max.y as i128) * den + shift_y > (st.aabb.max.y as i128) * den,
            HitType::UtD => (dy.max.x as i128) * den + shift_x > (st.aabb.max.x as i128) * den,
            _ => false,
        },
    }
}

/// The hit type of the box-vs-box cast against `st`: `Inside` on a strict
/// overlap, else the slab contact's directional tag.
pub open spec fn spec_bb_hit_type(dy: AABB, st: AABB, d: Vec2) -> HitType {
    if dy.strictly_overlaps(st) {
        HitType::Inside
    } else {
        slab_hit_type(dy, st, d)
    }
}

/// Numerator of the box-vs-box cast's distance fraction.
pub open spec fn spec_bb_num(dy: AABB, st: AABB, d: Vec2) -> int {
    if dy.strictly_overlaps(st) {
        0
    } else {
        entry_num(dy, st, d)
    }
}

/// Denominator of the box-vs-box cast's distance fraction.
pub open spec fn spec_bb_den(dy: AABB, st: AABB, d: Vec2) -> int {
    if dy.strictly_overlaps(st) {
        1
    } else {
        entry_den(dy, st, d)
    }
}

/// `t` is one of the slope's two flat-face hit types.
pub open spec fn is_straight_hit(t: HitType, s: Slope) -> bool {
    t == s.spec_straight_hits().0 || t == s.spec_straight_hits().1
}

/// The bounding-box contact already answers the slope cast: the moving box
/// touched a flat face, or slid past the triangle's empty corner.
pub open spec fn passes_through(dy: AABB, s: Slope, d: Vec2) -> bool {
    is_straight_hit(spec_bb_hit_type(dy, s.aabb, d), s) || spec_tipcheck(
        dy,
        d,
        s,
        spec_bb_hit_type(dy, s.aabb, d),
        spec_bb_num(dy, s.aabb, d),
        spec_bb_den(dy, s.aabb, d),
    )
}

/// The single corner of the moving box that can touch the hypotenuse: the
/// one opposite the triangle's empty corner.
pub open spec fn spec_start_corner(dy: AABB, s: Slope) -> Vec2 {
    match s.normal {
        SlopeNormal::LU => Vec2 { x: dy.max.x, y: dy.min.y },
        SlopeNormal::RU => Vec2 { x: dy.min.x, y: dy.min.y },
        SlopeNormal::RD => Vec2 { x: dy.min.x, y: dy.max.y },
        SlopeNormal::LD => Vec2 { x: dy.max.x, y: dy.max.y },
    }
}

/// The path of the touching corner over the whole displacement.
pub open spec fn spec_dyn_seg(dy: AABB, s: Slope, d: Vec2) -> Segment {
    let c = spec_start_corner(dy, s);
    Segment { start: c, end: Vec2 { x: (c.x + d.x) as i64, y: (c.y + d.y) as i64 } }
}

/// The touching corner's path crosses the hypotenuse segment.
pub open spec fn hypo_crossed(dy: AABB, s: Slope, d: Vec2) -> bool {
    seg_hit(spec_dyn_seg(dy, s, d), s.spec_slope_segment())
}

/// The box-vs-slope cast finds a contact: the bounding box is contacted,
/// and either that contact stands (flat face or tip occlusion) or the
/// touching corner's path crosses the hypotenuse.
pub open spec fn tri_hit_exists(dy: AABB, s: Slope, d: Vec2) -> bool {
    box_hit_exists(dy, s.aabb, d) && (passes_through(dy, s, d) || hypo_crossed(dy, s, d))
}

/// `h` is the box-vs-slope cast's answer: the bounding-box result unchanged
/// when that contact stands, else a `Slope` hit carrying the slope's outward
/// normal direction and the corner path's crossing parameter as the
/// distance.
pub open spec fn tri_result(dy: AABB, s: Slope, d: Vec2, h: ShapecastResult) -> bool {
    if !box_hit_exists(dy, s.aabb, d) {
        false
    } else if passes_through(dy, s, d) {
        box_result(dy, s.aabb, d, h)
    } else {
        hypo_crossed(dy, s, d) && h.hit_type == HitType::Slope && h.normal.x == s.normal_dir_x()
            && h.normal.y == s.normal_dir_y() && h.distance.num == seg_alpha_num(
            spec_dyn_seg(dy, s, d),
            s.spec_slope_segment(),
        ) && h.distance.den == seg_alpha_den(spec_dyn_seg(dy, s, d), s.spec_slope_segment())
    }
}

/// Swept cast of a moving box against a slope.
///
/// Runs the box-vs-box test against the slope's bounding box, keeps that
/// result for flat-face and tip-occluded contacts, and otherwise intersects
/// the touching corner's path with the hypotenuse exactly.
pub fn aabb_x_tri(dy: AABB, st: Slope, d: Vec2) -> (r: Option<ShapecastResult>)
    requires
        dy.wf(),
        st.aabb.wf(),
        d.wf(),
    ensures
        match r {
            Some(h) => tri_result(dy, st, d, h) && h.distance.in_unit(),
            None => !tri_hit_exists(dy, st, d),
        },
{
    let sub = match aabb_x_aabb(dy, st.aabb, d) {
        Some(s) => s,
        None => {
            return None;
        },
    };
    // A flat (non-hypotenuse) face was touched: the bounding-box result is
    // the true answer.
    let straights = st.straight_hits();
    if sub.hit_type == straights.0 || sub.hit_type == straights.1 {
        return Some(sub);
    }
    // The contact lies past the triangle's empty corner: the box slides by
    // without reaching the hypotenuse.
    if tipcheck(dy, d, st, sub.hit_type, sub.distance.num, sub.distance.den) {
        return Some(sub);
    }
    // Exact hypotenuse test: only one corner of the moving box can touch it.
    let start = match st.normal {
        SlopeNormal::LU => dy.rd(),
        SlopeNormal::RU => dy.ld(),
        SlopeNormal::RD => dy.lu(),
        SlopeNormal::LD => dy.ru(),
    };
    let dyn_seg = Segment { start, end: Vec2 { x: start.x + d.x, y: start.y + d.y } };
    let st_seg = st.slope_segment();
    let alpha = match dyn_seg.intersection(&st_seg) {
        Some(a) => a,
        None => {
            return None;
        },
    };
    Some(
        ShapecastResult {
            hit_type: HitType::Slope,
            normal: st.slope_vec_normal(),
            distance: alpha,
        },
    )
}

// ---------------------------------------------------------------------------
// Broad phase and the engine's entry point.
// ---------------------------------------------------------------------------

/// The swept bounding volume (the union of the moving box and its
/// displaced copy) strictly overlaps `bb`. No possible contact point lies
/// outside that union, so a miss here is a sound rejection.
pub open spec fn broad_overlaps(dy: AABB, bb: AABB, d: Vec2) -> bool {
    &&& dy.min.x + (if d.x < 0 {
        d.x as int
    } else {
        0
    }) < bb.max.x
    &&& dy.max.x + (if d.x > 0 {
        d.x as int
    } else {
        0
    }) > bb.min.x
    &&& dy.min.y + (if d.y < 0 {
        d.y as int
    } else {
        0
    }) < bb.max.y
    &&& dy.max.y + (if d.y > 0 {
        d.y as int
    } else {
        0
    }) > bb.min.y
}

/// Swept cast of a moving box against a static collider along a straight
/// displacement: the engine's sole entry point.
///
/// After broad-phase rejection against the swept bounding volume, the
/// narrow phase is dispatched by collider variant. The returned distance is
/// always an exact fraction of the displacement in `[0, 1]`: the distance
/// travelled until contact is that fraction of the displacement's length.
pub fn subshapecast(dy: AABB, st: Col, d: Vec2) -> (r: Option<ShapecastResult>)
    requires
        dy.wf(),
        st.wf(),
        d.wf(),
    ensures
        match r {
            Some(h) => {
                &&& broad_overlaps(dy, st.spec_bounding_box(), d)
                &&& match st {
                    Col::AABB(b) => box_result(dy, b, d, h),
                    Col::Slope(s) => tri_result(dy, s, d, h),
                }
                &&& h.distance.in_unit()
            },
            None => broad_overlaps(dy, st.spec_bounding_box(), d) ==> match st {
                Col::AABB(b) => !box_hit_exists(dy, b, d),
                Col::Slope(s) => !tri_hit_exists(dy, s, d),
            },
        },
{
    let broad = dy.union(dy.translate(d));
    if broad.intersects(st.bounding_box()) {
        match st {
            Col::AABB(b) => aabb_x_aabb(dy, b, d),
            Col::Slope(s) => aabb_x_tri(dy, s, d),
        }
    } else {
        None
    }
}

// ---------------------------------------------------------------------------
// Laws of the engine.
// ---------------------------------------------------------------------------

/// A moving box that already strictly overlaps a static box is reported as
/// `Inside` with zero normal at distance zero, whatever the displacement:
/// the broad phase cannot reject it, a box hit exists, and the `Inside`
/// result is the only one the box-vs-box cast allows.
pub proof fn lemma_immediate_overlap(dy: AABB, st: AABB, d: Vec2)
    requires
        dy.strictly_overlaps(st),
    ensures
        broad_overlaps(dy, st, d),
        box_hit_exists(dy, st, d),
        box_result(dy, st, d, inside_result()),
        forall|h: ShapecastResult| box_result(dy, st, d, h) ==> h == inside_result(),
{
}

/// A moving box already separated from the collider's bounding box along
/// some axis, displaced away from (or parallel to) it on that axis, is
/// rejected by the broad phase: no hit is ever reported.
pub proof fn lemma_miss_when_moving_away(dy: AABB, bb: AABB, d: Vec2)
    requires
        (dy.max.x <= bb.min.x && d.x <= 0) || (dy.min.x >= bb.max.x && d.x >= 0) || (dy.max.y
            <= bb.min.y && d.y <= 0) || (dy.min.y >= bb.max.y && d.y >= 0),
    ensures
        !broad_overlaps(dy, bb, d),
{
}

/// Straight-face passthrough: when the bounding-box contact's hit type is
/// one of the slope's two flat faces, the slope cast returns that contact
/// unchanged: the same hit type, normal and distance.
pub proof fn lemma_straight_face_passthrough(dy: AABB, s: Slope, d: Vec2, h: ShapecastResult)
    requires
        box_result(dy, s.aabb, d, h),
        is_straight_hit(h.hit_type, s),
    ensures
        tri_hit_exists(dy, s, d),
        tri_result(dy, s, d, h),
{
    assert(h.hit_type == spec_bb_hit_type(dy, s.aabb, d));
}

} // verus!
