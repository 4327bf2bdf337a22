//! Integer geometry for the simulation: coordinate limits, clamping,
//! time-scaled displacement, and axis-aligned box overlap.

use vstd::prelude::*;

verus! {

/// Coordinates are kept within this range; motion saturates at the limit.
pub const COORD_LIMIT: i64 = 1_000_000_000_000;

/// Velocity components (units per second) are bounded by this limit.
pub const VEL_LIMIT: i64 = 1_000_000;

/// A single tick never advances the simulation by more than this many
/// milliseconds; a larger elapsed time is clamped down to it.
pub const DT_LIMIT_MS: i64 = 60_000;

/// Milliseconds per second, the scale between velocities and elapsed time.
pub const MS_PER_SECOND: i64 = 1000;

/// Mathematical clamp of `x` into `[lo, hi]`.
pub open spec fn clamp(lo: int, x: int, hi: int) -> int {
    if x < lo {
        lo
    } else if x > hi {
        hi
    } else {
        x
    }
}

/// Clamp of a coordinate into the global coordinate range.
pub open spec fn sat_coord(x: int) -> int {
    clamp(-COORD_LIMIT as int, x, COORD_LIMIT as int)
}

/// Distance travelled in `dt_ms` milliseconds at `v` units per second,
/// truncated toward zero. A non-positive elapsed time moves nothing, and an
/// elapsed time beyond `DT_LIMIT_MS` counts as `DT_LIMIT_MS`.
pub open spec fn displacement(v: int, dt_ms: int) -> int {
    let d = clamp(0, dt_ms, DT_LIMIT_MS as int);
    if v >= 0 {
        (v * d) / (MS_PER_SECOND as int)
    } else {
        -(((-v) * d) / (MS_PER_SECOND as int))
    }
}

/// Two closed axis-aligned boxes overlap when they meet on both axes.
pub open spec fn boxes_overlap(
    a_left: int, a_top: int, a_right: int, a_bottom: int,
    b_left: int, b_top: int, b_right: int, b_bottom: int,
) -> bool {
    a_left <= b_right && b_left <= a_right && a_top <= b_bottom && b_top <= a_bottom
}

/// Executable clamp, exact against the mathematical one.
pub fn clamp_i64(lo: i64, x: i64, hi: i64) -> (r: i64)
    requires
        lo <= hi,
    ensures
        r == clamp(lo as int, x as int, hi as int),
{
    if x < lo {
        lo
    } else if x > hi {
        hi
    } else {
        x
    }
}

/// Executable displacement, exact against `displacement`.
pub fn displacement_i64(v: i64, dt_ms: i64) -> (r: i64)
    requires
        -VEL_LIMIT <= v <= VEL_LIMIT,
    ensures
        r == displacement(v as int, dt_ms as int),
        -VEL_LIMIT * DT_LIMIT_MS <= r <= VEL_LIMIT * DT_LIMIT_MS,
{
    let d = clamp_i64(0, dt_ms, DT_LIMIT_MS);
    if v >= 0 {
        proof {
            assert(0 <= v * d <= VEL_LIMIT * DT_LIMIT_MS) by (nonlinear_arith)
                requires
                    0 <= v <= VEL_LIMIT,
                    0 <= d <= DT_LIMIT_MS,
            ;
        }
        let p: i64 = v * d;
        let q: i64 = p / MS_PER_SECOND;
        proof {
            assert(0 <= (p as int) / (MS_PER_SECOND as int) <= p) by (nonlinear_arith)
                requires
                    0 <= p,
            ;
        }
        q
    } else {
        let m: i64 = -v;
        proof {
            assert(0 <= m * d <= VEL_LIMIT * DT_LIMIT_MS) by (nonlinear_arith)
                requires
                    0 <= m <= VEL_LIMIT,
                    0 <= d <= DT_LIMIT_MS,
            ;
        }
        let p: i64 = m * d;
        let q: i64 = p / MS_PER_SECOND;
        proof {
            assert(0 <= (p as int) / (MS_PER_SECOND as int) <= p) by (nonlinear_arith)
                requires
                    0 <= p,
            ;
        }
        -q
    }
}

} // verus!
