//! Circle colliders and the pairwise overlap test.
//!
//! Everything that can be hit is a circle: a collision is declared exactly
//! when the distance between two centers is at most the sum of the radii,
//! boundary included. The test compares squared distances, so it is exact.

use vstd::prelude::*;

verus! {

use crate::units::POS_WANDER_MAX;
use crate::units::RADIUS_MAX;
use crate::units::lemma_mul_bound;

/// Registration marker for the collision pass; the per-world pair scan is
/// its associated function.
pub struct CollisionPlugin;

/// Circular hit-test radius, in micro-units.
#[derive(Clone, Copy, Debug, PartialEq, Eq, Structural)]
pub struct Collider {
    pub radius: i64,
}

impl Collider {
    /// Radius range the squared-distance comparison is exact for.
    pub open spec fn wf(self) -> bool {
        0 <= self.radius <= RADIUS_MAX
    }
}

/// Whether two circles at `(x1, y1)` and `(x2, y2)` with radii `r1` and `r2`
/// overlap or touch: squared center distance at most the squared radius sum.
pub open spec fn collides(x1: int, y1: int, r1: int, x2: int, y2: int, r2: int) -> bool {
    (x1 - x2) * (x1 - x2) + (y1 - y2) * (y1 - y2) <= (r1 + r2) * (r1 + r2)
}

/// The overlap test is symmetric in its two circles.
pub proof fn lemma_collision_symmetry(x1: int, y1: int, r1: int, x2: int, y2: int, r2: int)
    ensures
        collides(x1, y1, r1, x2, y2, r2) == collides(x2, y2, r2, x1, y1, r1),
{
    assert((x1 - x2) * (x1 - x2) == (x2 - x1) * (x2 - x1)) by (nonlinear_arith);
    assert((y1 - y2) * (y1 - y2) == (y2 - y1) * (y2 - y1)) by (nonlinear_arith);
}

/// The boundary is inclusive: two circles whose center distance equals the
/// sum of their radii exactly collide, and two zero-radius circles on the
/// same center collide.
pub proof fn lemma_collision_boundary(x1: int, y1: int, r1: int, x2: int, y2: int, r2: int)
    ensures
        collides(x1, y1, 0, x1, y1, 0),
        (x1 - x2) * (x1 - x2) + (y1 - y2) * (y1 - y2) == (r1 + r2) * (r1 + r2)
            ==> collides(x1, y1, r1, x2, y2, r2),
{
}

impl Collider {
    /// The pairwise test itself, on raw coordinates.
    pub fn is_collision(x1: i64, y1: i64, c1: &Collider, x2: i64, y2: i64, c2: &Collider)
        -> (hit: bool)
        requires
            -POS_WANDER_MAX <= x1 <= POS_WANDER_MAX,
            -POS_WANDER_MAX <= y1 <= POS_WANDER_MAX,
            -POS_WANDER_MAX <= x2 <= POS_WANDER_MAX,
            -POS_WANDER_MAX <= y2 <= POS_WANDER_MAX,
            c1.wf(),
            c2.wf(),
        ensures
            hit == collides(x1 as int, y1 as int, c1.radius as int,
                            x2 as int, y2 as int, c2.radius as int),
    {
        let dx: i128 = x1 as i128 - x2 as i128;
        let dy: i128 = y1 as i128 - y2 as i128;
        let rs: i128 = c1.radius as i128 + c2.radius as i128;
        proof {
            lemma_mul_bound(dx as int, dx as int,
                2 * POS_WANDER_MAX as int, 2 * POS_WANDER_MAX as int);
            lemma_mul_bound(dy as int, dy as int,
                2 * POS_WANDER_MAX as int, 2 * POS_WANDER_MAX as int);
            lemma_mul_bound(rs as int, rs as int,
                2 * RADIUS_MAX as int, 2 * RADIUS_MAX as int);
        }
        dx * dx + dy * dy <= rs * rs
    }
}

} // verus!
