//! Fixed-point circular functions.
//!
//! Headings are unit vectors with milli-scaled components, computed from a
//! micro-radian angle with a truncated odd polynomial on the first quarter
//! turn and symmetry on the rest of the circle. The result is rounded to the
//! nearest milli-step, so the axis-aligned angles come out exact: a rotation
//! of zero gives exactly `(0, 1000)`.

use vstd::prelude::*;

verus! {

use crate::units::HALF_PI_URAD;
use crate::units::PI_URAD;
use crate::units::TAU_URAD;
use crate::units::THREE_HALF_PI_URAD;
use crate::units::lemma_mul_bound;
use crate::units::rem_euclid;

/// Upper end of the quarter-wave domain in micro-radians; slightly above a
/// quarter turn so that every symmetry-reduced argument fits.
pub const QUARTER_URAD_MAX: i64 = 1_570_797;

/// Milli-scaled sine on `[0, QUARTER_URAD_MAX]` micro-radians: the odd
/// polynomial through the seventh power, evaluated in micro-steps with
/// truncating divisions, rounded to milli-steps and clamped to `[0, 1000]`.
/// Opaque: contracts built on headings carry this definition everywhere,
/// and nothing above the kernel needs to look inside the polynomial.
#[verifier::opaque]
pub open spec fn sin_quarter_spec(x: int) -> int {
    let y2 = (x * x) / 1_000_000;
    let y3 = (y2 * x) / 1_000_000;
    let y5 = (y3 * y2) / 1_000_000;
    let y7 = (y5 * y2) / 1_000_000;
    let pos = x + y5 / 120;
    let neg = y3 / 6 + y7 / 5040;
    if pos <= neg {
        0
    } else if (pos - neg + 500) / 1_000 >= 1_000 {
        1_000
    } else {
        (pos - neg + 500) / 1_000
    }
}

/// Milli-scaled sine of an angle already reduced to `[0, TAU_URAD)`,
/// by quadrant symmetry over the quarter wave.
pub open spec fn sin_reduced_spec(m: int) -> int {
    if m < HALF_PI_URAD {
        sin_quarter_spec(m)
    } else if m < PI_URAD {
        sin_quarter_spec(PI_URAD - m)
    } else if m < THREE_HALF_PI_URAD {
        -sin_quarter_spec(m - PI_URAD)
    } else {
        -sin_quarter_spec(TAU_URAD - m)
    }
}

/// Milli-scaled cosine of an angle already reduced to `[0, TAU_URAD)`.
pub open spec fn cos_reduced_spec(m: int) -> int {
    if m < HALF_PI_URAD {
        sin_quarter_spec(HALF_PI_URAD - m)
    } else if m < PI_URAD {
        -sin_quarter_spec(m - HALF_PI_URAD)
    } else if m < THREE_HALF_PI_URAD {
        -sin_quarter_spec(THREE_HALF_PI_URAD - m)
    } else {
        sin_quarter_spec(m - THREE_HALF_PI_URAD)
    }
}

/// Milli-scaled sine of any angle in micro-radians.
pub open spec fn sin_milli_spec(a: int) -> int {
    sin_reduced_spec(a % (TAU_URAD as int))
}

/// Milli-scaled cosine of any angle in micro-radians.
pub open spec fn cos_milli_spec(a: int) -> int {
    cos_reduced_spec(a % (TAU_URAD as int))
}

/// Quarter-wave kernel shared by `sin_milli` and `cos_milli`.
fn sin_quarter(x: i64) -> (r: i64)
    requires
        0 <= x <= QUARTER_URAD_MAX,
    ensures
        r == sin_quarter_spec(x as int),
        0 <= r <= 1_000,
{
    proof {
        reveal(sin_quarter_spec);
    }
    let xi: u64 = x as u64;
    proof {
        lemma_mul_bound(xi as int, xi as int, 1_570_797, 1_570_797);
    }
    let p2: u64 = xi * xi;
    let y2: u64 = p2 / 1_000_000;
    proof {
        vstd::arithmetic::div_mod::lemma_div_is_ordered(
            p2 as int, (1_570_797 * 1_570_797) as int, 1_000_000);
    }
    proof {
        lemma_mul_bound(y2 as int, xi as int, 2_467_403, 1_570_797);
    }
    let p3: u64 = y2 * xi;
    let y3: u64 = p3 / 1_000_000;
    proof {
        vstd::arithmetic::div_mod::lemma_div_is_ordered(
            p3 as int, (2_467_403 * 1_570_797) as int, 1_000_000);
    }
    proof {
        lemma_mul_bound(y3 as int, y2 as int, 3_876_000, 2_467_403);
    }
    let p5: u64 = y3 * y2;
    let y5: u64 = p5 / 1_000_000;
    proof {
        vstd::arithmetic::div_mod::lemma_div_is_ordered(
            p5 as int, (3_876_000 * 2_467_403) as int, 1_000_000);
    }
    proof {
        lemma_mul_bound(y5 as int, y2 as int, 9_563_656, 2_467_403);
    }
    let p7: u64 = y5 * y2;
    let y7: u64 = p7 / 1_000_000;
    let pos: u64 = xi + y5 / 120;
    let neg: u64 = y3 / 6 + y7 / 5040;
    if pos <= neg {
        0
    } else {
        let milli: u64 = (pos - neg + 500) / 1_000;
        if milli >= 1_000 {
            1_000
        } else {
            milli as i64
        }
    }
}

/// Milli-scaled sine of an angle in micro-radians.
pub fn sin_milli(a: i64) -> (r: i64)
    requires
        a > i64::MIN,
    ensures
        r == sin_milli_spec(a as int),
        -1_000 <= r <= 1_000,
{
    let m = rem_euclid(a, TAU_URAD);
    if m < HALF_PI_URAD {
        sin_quarter(m)
    } else if m < PI_URAD {
        sin_quarter(PI_URAD - m)
    } else if m < THREE_HALF_PI_URAD {
        -sin_quarter(m - PI_URAD)
    } else {
        -sin_quarter(TAU_URAD - m)
    }
}

/// Milli-scaled cosine of an angle in micro-radians.
pub fn cos_milli(a: i64) -> (r: i64)
    requires
        a > i64::MIN,
    ensures
        r == cos_milli_spec(a as int),
        -1_000 <= r <= 1_000,
{
    let m = rem_euclid(a, TAU_URAD);
    if m < HALF_PI_URAD {
        sin_quarter(HALF_PI_URAD - m)
    } else if m < PI_URAD {
        -sin_quarter(m - HALF_PI_URAD)
    } else if m < THREE_HALF_PI_URAD {
        -sin_quarter(THREE_HALF_PI_URAD - m)
    } else {
        sin_quarter(m - THREE_HALF_PI_URAD)
    }
}

/// The milli-scaled x component of the "nose" direction of a body rotated by
/// `rot` micro-radians: rotation zero points along positive y, and positive
/// rotation turns counter-clockwise.
pub open spec fn heading_x_spec(rot: int) -> int {
    -sin_milli_spec(rot)
}

/// The milli-scaled y component of the "nose" direction of a body rotated by
/// `rot` micro-radians.
pub open spec fn heading_y_spec(rot: int) -> int {
    cos_milli_spec(rot)
}

/// The milli-scaled unit vector a body rotated by `rot` micro-radians
/// points along.
pub fn heading_milli(rot: i64) -> (h: (i64, i64))
    requires
        rot > i64::MIN,
    ensures
        h.0 == heading_x_spec(rot as int),
        h.1 == heading_y_spec(rot as int),
        -1_000 <= h.0 <= 1_000,
        -1_000 <= h.1 <= 1_000,
{
    let hx = -sin_milli(rot);
    let hy = cos_milli(rot);
    (hx, hy)
}

} // verus!
