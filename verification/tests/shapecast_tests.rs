use shapecast::aabb::AABB;
use shapecast::col::Col;
use shapecast::geom::{Frac, Vec2};
use shapecast::shapecast::{subshapecast, HitType, ShapecastResult};
use shapecast::slope::{Slope, SlopeNormal};

fn boxed(min_x: i64, min_y: i64, max_x: i64, max_y: i64) -> AABB {
    AABB { min: Vec2 { x: min_x, y: min_y }, max: Vec2 { x: max_x, y: max_y } }
}

/// The distance fraction equals `num / den`.
fn frac_is(f: Frac, num: i128, den: i128) -> bool {
    f.den > 0 && den > 0 && f.num * den == num * f.den
}

/// The distance fraction lies in `[0, 1]`: the hit is at most the whole
/// displacement away.
fn in_unit(h: &ShapecastResult) -> bool {
    h.distance.den > 0 && 0 <= h.distance.num && h.distance.num <= h.distance.den
}

#[test]
fn immediate_overlap_returns_inside_for_any_displacement() {
    let moving = boxed(0, 0, 2, 2);
    let fixed = Col::AABB(boxed(1, 1, 3, 3));
    for d in [
        Vec2 { x: 0, y: 0 },
        Vec2 { x: 5, y: 0 },
        Vec2 { x: -7, y: 3 },
        Vec2 { x: 0, y: -9 },
    ] {
        let h = subshapecast(moving, fixed, d).expect("overlap is an immediate hit");
        assert_eq!(h.hit_type, HitType::Inside);
        assert_eq!(h.normal, Vec2 { x: 0, y: 0 });
        assert_eq!(h.distance.num, 0);
        assert!(in_unit(&h));
    }
}

#[test]
fn edge_touching_boxes_are_not_inside() {
    // Strict overlap is open: a shared edge does not fire the inside path,
    // and a box moving away from the shared edge misses entirely.
    let moving = boxed(-2, 0, 0, 2);
    let fixed = Col::AABB(boxed(0, 0, 2, 2));
    assert!(subshapecast(moving, fixed, Vec2 { x: -3, y: 0 }).is_none());
    // Moving into the obstacle gives a swept hit at zero distance instead.
    let h = subshapecast(moving, fixed, Vec2 { x: 3, y: 0 }).expect("touching contact");
    assert_eq!(h.hit_type, HitType::RtL);
    assert_eq!(h.distance.num, 0);
}

#[test]
fn swept_hit_concrete_case() {
    // Moving box (-3,0)..(-2,1) cast by (4,0) against (0,0)..(2,2): it is
    // blocked by the right-to-left facing face after half the displacement,
    // a Euclidean distance of 2.
    let moving = boxed(-3, 0, -2, 1);
    let fixed = Col::AABB(boxed(0, 0, 2, 2));
    let d = Vec2 { x: 4, y: 0 };
    let h = subshapecast(moving, fixed, d).expect("the path is blocked");
    assert_eq!(h.hit_type, HitType::RtL);
    assert_eq!(h.normal, Vec2 { x: -1, y: 0 });
    assert!(frac_is(h.distance, 1, 2));
    // distance * |d| == 0.5 * 4 == 2.
    assert_eq!(h.distance.num * 4, 2 * h.distance.den);
    assert!(in_unit(&h));
}

#[test]
fn miss_when_moving_away() {
    // Separated on x, displacement pointing further away (or parallel).
    let moving = boxed(-5, 0, -4, 1);
    let fixed = Col::AABB(boxed(0, 0, 2, 2));
    assert!(subshapecast(moving, fixed, Vec2 { x: -8, y: 0 }).is_none());
    assert!(subshapecast(moving, fixed, Vec2 { x: 0, y: 1 }).is_none());
    // Separated above, moving further up.
    let above = boxed(0, 5, 1, 6);
    assert!(subshapecast(above, fixed, Vec2 { x: 0, y: 9 }).is_none());
}

#[test]
fn zero_displacement_without_overlap_misses() {
    let moving = boxed(-3, 0, -2, 1);
    let fixed = Col::AABB(boxed(0, 0, 2, 2));
    assert!(subshapecast(moving, fixed, Vec2 { x: 0, y: 0 }).is_none());
}

#[test]
fn short_displacement_stops_before_contact() {
    // Three units short of the obstacle: a two-unit move cannot reach it.
    let moving = boxed(-4, 0, -3, 1);
    let fixed = Col::AABB(boxed(0, 0, 2, 2));
    assert!(subshapecast(moving, fixed, Vec2 { x: 2, y: 0 }).is_none());
    // Arriving exactly at the face only touches it: the strict broad phase
    // rejects a swept volume that shares an edge with the obstacle.
    assert!(subshapecast(moving, fixed, Vec2 { x: 3, y: 0 }).is_none());
    // One unit further and the face blocks after three quarters of the move.
    let h = subshapecast(moving, fixed, Vec2 { x: 4, y: 0 }).expect("blocked");
    assert_eq!(h.hit_type, HitType::RtL);
    assert!(frac_is(h.distance, 3, 4));
}

#[test]
fn vertical_hit_reports_down_facing_face() {
    // Falling onto the top of a box: the up-to-down facing face blocks,
    // normal pointing up.
    let moving = boxed(0, 5, 1, 6);
    let fixed = Col::AABB(boxed(-2, 0, 3, 2));
    let h = subshapecast(moving, fixed, Vec2 { x: 0, y: -6 }).expect("lands on top");
    assert_eq!(h.hit_type, HitType::DtU);
    assert_eq!(h.normal, Vec2 { x: 0, y: 1 });
    assert!(frac_is(h.distance, 1, 2));
}

#[test]
fn diagonal_hit_blocked_by_later_axis() {
    // Both axes must be entered; the later (y) axis decides the hit type.
    let moving = boxed(-2, -4, -1, -3);
    let fixed = Col::AABB(boxed(0, 0, 4, 4));
    let h = subshapecast(moving, fixed, Vec2 { x: 4, y: 12 }).expect("corner approach");
    assert_eq!(h.hit_type, HitType::UtD);
    assert_eq!(h.normal, Vec2 { x: 0, y: -1 });
    assert!(frac_is(h.distance, 1, 4));
    assert!(in_unit(&h));
}

#[test]
fn straight_face_passthrough_matches_bounding_box_cast() {
    // Falling onto the flat top face of an LD slope gives exactly the
    // bounding-box answer.
    let s = Slope { aabb: boxed(0, 0, 2, 2), normal: SlopeNormal::LD };
    let moving = boxed(0, 3, 1, 4);
    let d = Vec2 { x: 0, y: -2 };
    let on_slope = subshapecast(moving, Col::Slope(s), d).expect("lands on the flat top");
    let on_bb = subshapecast(moving, Col::AABB(s.aabb), d).expect("same contact");
    assert_eq!(on_slope, on_bb);
    assert_eq!(on_slope.hit_type, HitType::DtU);
    assert_eq!(on_slope.normal, Vec2 { x: 0, y: 1 });
    assert!(frac_is(on_slope.distance, 1, 2));
}

#[test]
fn hypotenuse_hit_reports_slope_normal_and_exact_fraction() {
    // LD slope on (0,0)..(4,4): hypotenuse from (4,0) to (0,4). The moving
    // box's upper-right corner travels from (-1,-1) by (6,6) and crosses the
    // diagonal x + y == 4 at (2,2), half way along the displacement.
    let s = Slope { aabb: boxed(0, 0, 4, 4), normal: SlopeNormal::LD };
    let moving = boxed(-2, -2, -1, -1);
    let d = Vec2 { x: 6, y: 6 };
    let h = subshapecast(moving, Col::Slope(s), d).expect("crosses the hypotenuse");
    assert_eq!(h.hit_type, HitType::Slope);
    assert_eq!(h.normal, Vec2 { x: -4, y: -4 });
    assert!(frac_is(h.distance, 1, 2));
    assert!(in_unit(&h));
}

#[test]
fn hypotenuse_touch_at_corner_path_end_counts() {
    // The corner's path ends exactly on the hypotenuse: fraction 1.
    let s = Slope { aabb: boxed(0, 0, 4, 4), normal: SlopeNormal::LD };
    let moving = boxed(-2, -2, -1, -1);
    let d = Vec2 { x: 3, y: 3 };
    let h = subshapecast(moving, Col::Slope(s), d).expect("touches the hypotenuse");
    assert_eq!(h.hit_type, HitType::Slope);
    assert!(frac_is(h.distance, 1, 1));
}

#[test]
fn tip_occlusion_keeps_the_bounding_box_result() {
    // LU slope: solid triangle with the top-left corner missing. A wide box
    // falling right of the triangle's tip touches the bounding box beyond
    // the empty corner, so the bounding-box contact stands.
    let s = Slope { aabb: boxed(0, 0, 4, 4), normal: SlopeNormal::LU };
    let moving = boxed(3, 5, 6, 6);
    let d = Vec2 { x: 0, y: -2 };
    let h = subshapecast(moving, Col::Slope(s), d).expect("corner contact");
    assert_eq!(h.hit_type, HitType::DtU);
    assert_eq!(h.normal, Vec2 { x: 0, y: 1 });
    assert!(frac_is(h.distance, 1, 2));
}

#[test]
fn bounding_box_hit_but_hypotenuse_missed_is_no_hit() {
    // The bounding-box cast reports a side hit, but the touching corner's
    // path never reaches the diagonal: the slope cast misses.
    let s = Slope { aabb: boxed(0, 0, 8, 8), normal: SlopeNormal::LU };
    let moving = boxed(-6, 6, -4, 9);
    let d = Vec2 { x: 8, y: 0 };
    assert!(subshapecast(moving, Col::Slope(s), d).is_none());
    // Against the bare bounding box the same cast hits.
    assert!(subshapecast(moving, Col::AABB(s.aabb), d).is_some());
}

#[test]
fn overlap_with_slope_bounding_box_resolves_against_hypotenuse() {
    // Already inside the bounding box (not a straight-face tag, no tip
    // occlusion): the corner path is tested against the hypotenuse.
    let s = Slope { aabb: boxed(0, 0, 4, 4), normal: SlopeNormal::LU };
    let moving = boxed(1, 1, 2, 2);
    let d = Vec2 { x: 0, y: 4 };
    let h = subshapecast(moving, Col::Slope(s), d).expect("corner path crosses the diagonal");
    assert_eq!(h.hit_type, HitType::Slope);
    assert_eq!(h.normal, Vec2 { x: -4, y: 4 });
    assert!(frac_is(h.distance, 1, 4));
}

#[test]
fn distance_fraction_always_within_the_displacement() {
    // Every reported hit carries a fraction in [0, 1].
    let fixtures: Vec<(AABB, Col, Vec2)> = vec![
        (boxed(-3, 0, -2, 1), Col::AABB(boxed(0, 0, 2, 2)), Vec2 { x: 4, y: 0 }),
        (boxed(0, 0, 2, 2), Col::AABB(boxed(1, 1, 3, 3)), Vec2 { x: -9, y: 5 }),
        (
            boxed(-2, -2, -1, -1),
            Col::Slope(Slope { aabb: boxed(0, 0, 4, 4), normal: SlopeNormal::LD }),
            Vec2 { x: 6, y: 6 },
        ),
        (
            boxed(3, 5, 6, 6),
            Col::Slope(Slope { aabb: boxed(0, 0, 4, 4), normal: SlopeNormal::LU }),
            Vec2 { x: 0, y: -2 },
        ),
    ];
    for (moving, fixed, d) in fixtures {
        if let Some(h) = subshapecast(moving, fixed, d) {
            assert!(in_unit(&h));
        }
    }
}
