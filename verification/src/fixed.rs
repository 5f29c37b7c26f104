//! Fixed-point scalars.
//!
//! Every continuous quantity of the viewer — pixel deltas, world coordinates,
//! yaw angles in radians, logarithmic scale — is carried as an `i64` count of
//! thousandths of its unit. The shell that talks to the rendering engine
//! converts to and from its floating-point values at the boundary; inside the
//! core all arithmetic is exact integer arithmetic with stated rounding.

use vstd::prelude::*;

verus! {

/// One unit, in thousandths.
pub const FX_ONE: i64 = 1000;

/// Bound on the components of a unit vector or of a sine/cosine pair.
pub const FX_UNIT_BOUND: i64 = 1000;

/// Bound on a single pointer-drag delta component: one thousand pixels.
pub const DELTA_BOUND: i64 = 1000000;

/// Bound on a world coordinate handed to the placement math: one billion units.
pub const COORD_BOUND: i64 = 1000000000000;

/// Division of a product by one unit, truncated toward zero, as the
/// executable fixed-point multiply rounds.
pub open spec fn fx_div_unit(p: int) -> int {
    if p >= 0 {
        p / 1000
    } else {
        -((-p) / 1000)
    }
}

/// The fixed-point product `a * b`, scaled back down by one unit.
pub open spec fn fx_mul(a: int, b: int) -> int {
    fx_div_unit(a * b)
}

/// Addition saturating at the `i64` range.
pub open spec fn sat_add(a: int, b: int) -> int {
    if a + b > i64::MAX {
        i64::MAX as int
    } else if a + b < i64::MIN {
        i64::MIN as int
    } else {
        a + b
    }
}

/// Clamp of `x` into `[lo, hi]`.
pub open spec fn clamp(x: int, lo: int, hi: int) -> int {
    if x < lo {
        lo
    } else if x > hi {
        hi
    } else {
        x
    }
}

/// The smaller of two values.
pub open spec fn min_of(a: int, b: int) -> int {
    if a <= b {
        a
    } else {
        b
    }
}

/// A product is bounded by the product of the bounds of its factors.
pub proof fn lemma_mul_bound(a: int, b: int, ab: int, bb: int)
    by (nonlinear_arith)
    requires
        -ab <= a <= ab,
        -bb <= b <= bb,
        0 <= ab,
        0 <= bb,
    ensures
        -(ab * bb) <= a * b <= ab * bb,
{
}

/// Fixed-point multiply: `a * b` scaled down by one unit, truncated toward
/// zero. The second pair of clauses bounds the result linearly in the
/// product, which is what callers use to track ranges.
pub fn mul_fx(a: i64, b: i64) -> (r: i64)
    requires
        -0x4000_0000_0000_0000 < a * b < 0x4000_0000_0000_0000,
    ensures
        r == fx_mul(a as int, b as int),
        a * b - 999 <= 1000 * r <= a * b + 999,
{
    let p: i64 = a * b;
    if p >= 0 {
        let q: u64 = (p as u64) / 1000;
        q as i64
    } else {
        let m: u64 = (-p) as u64;
        let q: u64 = m / 1000;
        -(q as i64)
    }
}

/// Saturating addition on `i64`.
pub fn add_sat(a: i64, b: i64) -> (r: i64)
    ensures
        r == sat_add(a as int, b as int),
{
    if b >= 0 {
        if a > i64::MAX - b {
            i64::MAX
        } else {
            a + b
        }
    } else {
        if a < i64::MIN - b {
            i64::MIN
        } else {
            a + b
        }
    }
}

/// Clamp of `x` into `[lo, hi]`.
pub fn clamp_i64(x: i64, lo: i64, hi: i64) -> (r: i64)
    requires
        lo <= hi,
    ensures
        r == clamp(x as int, lo as int, hi as int),
        lo <= r <= hi,
{
    if x < lo {
        lo
    } else if x > hi {
        hi
    } else {
        x
    }
}

/// The smaller of two values.
pub fn min_i64(a: i64, b: i64) -> (r: i64)
    ensures
        r == min_of(a as int, b as int),
{
    if a <= b {
        a
    } else {
        b
    }
}

/// A point or direction in world space, in thousandths of a unit.
#[derive(Clone, Copy, Debug, PartialEq, Eq, Structural)]
pub struct Vec3Fx {
    pub x: i64,
    pub y: i64,
    pub z: i64,
}

/// Components of a point or extent lie within the world-coordinate bound.
pub open spec fn vec3_bounded(v: Vec3Fx) -> bool {
    &&& -COORD_BOUND <= v.x <= COORD_BOUND
    &&& -COORD_BOUND <= v.y <= COORD_BOUND
    &&& -COORD_BOUND <= v.z <= COORD_BOUND
}

} // verus!
