//! Viewport bounds and the toroidal wrap constraint.
//!
//! The playable area is an axis-aligned rectangle; entities tagged as
//! viewport-bounded are re-projected into it each tick, modulo the
//! rectangle's width and height, so leaving one edge re-enters the opposite
//! one. The wrap is a true non-negative modulo, so it is correct for
//! positions arbitrarily far outside the rectangle, negative ones included.

use vstd::prelude::*;

verus! {

use crate::units::BOUNDS_MAX;
use crate::units::MILLI;
use crate::units::POS_WANDER_MAX;
use crate::units::rem_euclid;

/// Registration marker for the viewport passes; the per-world wrap sweep is
/// an associated function of the world.
pub struct ViewportPlugin;

/// Marker attribute for entities subject to the wrap constraint.
#[derive(Clone, Copy, Debug, PartialEq, Eq, Structural, Default)]
pub struct ViewportBounded;

/// Marker attribute for the camera the viewport is derived from.
#[derive(Clone, Copy, Debug, PartialEq, Eq, Structural)]
pub struct PrimaryCameraMarker;

/// Window and camera tuning the bounds are derived from. Lengths are in
/// pixels (one pixel spans one world unit at scale `1000`), the camera scale
/// is milli-scaled, and the margin is in micro-units.
#[derive(Clone, Debug)]
pub struct ViewportConfig {
    pub title: String,
    pub fit_canvas_to_parent: bool,
    pub prevent_default_event_handling: bool,
    pub resolution_x: i64,
    pub resolution_y: i64,
    pub background_color: String,
    pub camera_scale: i64,
    pub bounding_margin: i64,
}

impl ViewportConfig {
    /// Ranges under which the derived bounds stay a valid rectangle.
    pub open spec fn wf(self) -> bool {
        &&& 0 < self.resolution_x <= 8_000
        &&& 0 < self.resolution_y <= 8_000
        &&& 0 < self.camera_scale <= 50_000
        &&& 0 <= self.bounding_margin <= 100_000_000_000
    }
}

/// The playable rectangle, corners in micro-units.
#[derive(Clone, Copy, Debug, PartialEq, Eq, Structural)]
pub struct ViewportBounds {
    pub min_x: i64,
    pub min_y: i64,
    pub max_x: i64,
    pub max_y: i64,
}

impl ViewportBounds {
    /// A valid rectangle with corners in range.
    pub open spec fn wf(self) -> bool {
        &&& self.min_x < self.max_x
        &&& self.min_y < self.max_y
        &&& -BOUNDS_MAX <= self.min_x
        &&& self.max_x <= BOUNDS_MAX
        &&& -BOUNDS_MAX <= self.min_y
        &&& self.max_y <= BOUNDS_MAX
    }

    /// Width in micro-units.
    pub open spec fn span_x(self) -> int {
        self.max_x - self.min_x
    }

    /// Height in micro-units.
    pub open spec fn span_y(self) -> int {
        self.max_y - self.min_y
    }

    /// The rectangle a configuration asks for: the scaled resolution plus
    /// the margin, centered on the origin.
    pub fn from_config(config: &ViewportConfig) -> (bounds: ViewportBounds)
        requires
            config.wf(),
        ensures
            bounds.wf(),
            bounds.span_x() == config.resolution_x * config.camera_scale * MILLI
                + config.bounding_margin,
            bounds.span_y() == config.resolution_y * config.camera_scale * MILLI
                + config.bounding_margin,
            bounds.min_x + bounds.max_x == 0 || bounds.min_x + bounds.max_x == 1,
            bounds.min_y + bounds.max_y == 0 || bounds.min_y + bounds.max_y == 1,
    {
        proof {
            crate::units::lemma_mul_bound(
                config.resolution_x as int, config.camera_scale as int, 8_000, 50_000);
            crate::units::lemma_mul_bound(
                config.resolution_x * config.camera_scale, MILLI as int,
                (8_000 * 50_000) as int, MILLI as int);
            crate::units::lemma_mul_bound(
                config.resolution_y as int, config.camera_scale as int, 8_000, 50_000);
            crate::units::lemma_mul_bound(
                config.resolution_y * config.camera_scale, MILLI as int,
                (8_000 * 50_000) as int, MILLI as int);
        }
        proof {
            assert(config.resolution_x * config.camera_scale >= 1
                && config.resolution_y * config.camera_scale >= 1) by (nonlinear_arith)
                requires
                    config.resolution_x >= 1,
                    config.resolution_y >= 1,
                    config.camera_scale >= 1;
            assert(config.resolution_x * config.camera_scale * MILLI >= MILLI
                && config.resolution_y * config.camera_scale * MILLI >= MILLI) by (nonlinear_arith)
                requires
                    config.resolution_x * config.camera_scale >= 1,
                    config.resolution_y * config.camera_scale >= 1,
                    MILLI == 1_000;
        }
        let size_x = config.resolution_x * config.camera_scale * MILLI + config.bounding_margin;
        let size_y = config.resolution_y * config.camera_scale * MILLI + config.bounding_margin;
        let half_x = (size_x as u64 / 2) as i64;
        let half_y = (size_y as u64 / 2) as i64;
        proof {
            vstd::arithmetic::div_mod::lemma_div_nonincreasing(size_x as int, 2);
            vstd::arithmetic::div_mod::lemma_div_nonincreasing(size_y as int, 2);
        }
        ViewportBounds {
            min_x: -half_x,
            min_y: -half_y,
            max_x: size_x - half_x,
            max_y: size_y - half_y,
        }
    }
}

/// One axis of the wrap: the unique value in `[min, min + span)` congruent
/// to `p` modulo `span`.
pub open spec fn wrap_axis_spec(p: int, min: int, span: int) -> int {
    min + (p - min) % span
}

/// Re-project one coordinate into `[min, min + span)`, torus-style.
pub fn wrap_axis(p: i64, min: i64, span: i64) -> (r: i64)
    requires
        0 < span <= 2 * BOUNDS_MAX,
        -BOUNDS_MAX <= min <= BOUNDS_MAX,
        -POS_WANDER_MAX <= p <= POS_WANDER_MAX,
    ensures
        r == wrap_axis_spec(p as int, min as int, span as int),
        min <= r < min + span,
{
    min + rem_euclid(p - min, span)
}

/// Wrapping is idempotent: a second application changes nothing.
pub proof fn lemma_wrap_idempotent(p: int, min: int, span: int)
    requires
        span > 0,
    ensures
        wrap_axis_spec(wrap_axis_spec(p, min, span), min, span)
            == wrap_axis_spec(p, min, span),
{
    let r0 = (p - min) % span;
    vstd::arithmetic::div_mod::lemma_mod_bound(p - min, span);
    vstd::arithmetic::div_mod::lemma_small_mod(r0 as nat, span as nat);
}

/// A position already inside the rectangle's range is left unchanged.
pub proof fn lemma_wrap_inside(p: int, min: int, span: int)
    requires
        span > 0,
        min <= p < min + span,
    ensures
        wrap_axis_spec(p, min, span) == p,
{
    vstd::arithmetic::div_mod::lemma_small_mod((p - min) as nat, span as nat);
}

/// A position exactly on the far edge wraps to the near edge.
pub proof fn lemma_wrap_at_max(min: int, span: int)
    requires
        span > 0,
    ensures
        wrap_axis_spec(min + span, min, span) == min,
{
    vstd::arithmetic::div_mod::lemma_mod_self_0(span);
}

} // verus!
