//! Scalar geometry primitives: bounded integer coordinates, 2D vectors and
//! exact rational fractions of a displacement.

use vstd::prelude::*;

verus! {

/// Largest coordinate magnitude the engine accepts.
///
/// Keeping every coordinate within this bound guarantees that every product
/// formed by the slab test and the segment intersection fits comfortably in
/// the machine integers that carry it.
pub const COORD_LIMIT: i64 = 1048576;

/// A 2D vector (or point) with integer coordinates.
#[derive(Clone, Copy, Debug, PartialEq, Eq, Structural)]
pub struct Vec2 {
    pub x: i64,
    pub y: i64,
}

impl Vec2 {
    /// Both coordinates lie within the engine's coordinate bound.
    pub open spec fn wf(self) -> bool {
        -COORD_LIMIT <= self.x <= COORD_LIMIT && -COORD_LIMIT <= self.y <= COORD_LIMIT
    }
}

/// An exact non-negative rational `num / den`, with `den > 0`.
///
/// Every hit distance is reported as such a fraction of the displacement
/// vector: the Euclidean distance travelled is `(num / den) * |displacement|`.
#[derive(Clone, Copy, Debug, PartialEq, Eq, Structural)]
pub struct Frac {
    pub num: i128,
    pub den: i128,
}

impl Frac {
    /// The fraction lies in the unit interval: `0 <= num/den <= 1`.
    pub open spec fn in_unit(self) -> bool {
        0 < self.den && 0 <= self.num <= self.den
    }

    /// Equality as rationals: `self.num / self.den == n / d`.
    pub open spec fn is_ratio(self, n: int, d: int) -> bool {
        0 < self.den && 0 < d && self.num * d == n * self.den
    }
}

/// The absolute value of a mathematical integer.
pub open spec fn abs_i(a: int) -> int {
    if a >= 0 {
        a
    } else {
        -a
    }
}

/// A product of two bounded factors is bounded by the product of the bounds.
pub proof fn lemma_mul_bound(a: int, b: int, m: int, n: int)
    by (nonlinear_arith)
    requires
        -m <= a <= m,
        -n <= b <= n,
        0 <= m,
        0 <= n,
    ensures
        -(m * n) <= a * b <= m * n,
{
}

} // verus!
