//! Scalar and vector primitives of the simulation core.
//!
//! Scalars are exact fixed-point integers.  A spatial coordinate is a count
//! of space ticks; a duration is a count of time ticks, with `TIME_UNIT`
//! ticks making one unit of simulated time.  The limits below are machine
//! limits: they keep every product that the kernels and the time-step
//! formula build inside the range of the executable integer types.

use vstd::prelude::*;

verus! {

/// Number of time ticks in one unit of simulated time.
pub const TIME_UNIT: i64 = 1_000_000;

/// Largest magnitude of a spatial coordinate, in space ticks.
pub const COORD_LIMIT: i64 = 1_000_000_000;

/// Largest smoothing radius accepted by the kernels, in space ticks.
pub const RADIUS_LIMIT: i64 = 1_000;

/// Largest magnitude of a velocity or acceleration component.
pub const KINEMATIC_LIMIT: i64 = 1_000_000;

/// Largest duration, in time ticks, accepted as a macro step.
pub const TIME_LIMIT: i64 = 1_000_000_000;

/// A two-dimensional vector of fixed-point coordinates.
#[derive(Clone, Copy, Debug, PartialEq, Eq, Structural)]
pub struct Vect {
    pub x: i64,
    pub y: i64,
}

/// Whether both coordinates of `v` lie within the spatial limits.
pub open spec fn in_bounds(v: Vect) -> bool {
    &&& -COORD_LIMIT <= v.x <= COORD_LIMIT
    &&& -COORD_LIMIT <= v.y <= COORD_LIMIT
}

/// Whether both components of `v` lie within the kinematic limits.
pub open spec fn kinematic_in_bounds(v: Vect) -> bool {
    &&& -KINEMATIC_LIMIT <= v.x <= KINEMATIC_LIMIT
    &&& -KINEMATIC_LIMIT <= v.y <= KINEMATIC_LIMIT
}

/// Whether `r` is a smoothing radius the kernels accept.
pub open spec fn valid_radius(r: i64) -> bool {
    0 < r <= RADIUS_LIMIT
}

/// Squared Euclidean distance between two points.
pub open spec fn dist_sq(p: Vect, q: Vect) -> int {
    let dx = p.x - q.x;
    let dy = p.y - q.y;
    dx * dx + dy * dy
}

/// The squared distance does not depend on the order of the two points.
pub proof fn lemma_dist_sq_symmetric(p: Vect, q: Vect)
    ensures
        dist_sq(p, q) == dist_sq(q, p),
{
    assert((p.x - q.x) * (p.x - q.x) == (q.x - p.x) * (q.x - p.x)) by (nonlinear_arith);
    assert((p.y - q.y) * (p.y - q.y) == (q.y - p.y) * (q.y - p.y)) by (nonlinear_arith);
}

/// The squared distance is never negative.
pub proof fn lemma_dist_sq_nonneg(p: Vect, q: Vect)
    ensures
        dist_sq(p, q) >= 0,
{
    assert((p.x - q.x) * (p.x - q.x) >= 0) by (nonlinear_arith);
    assert((p.y - q.y) * (p.y - q.y) >= 0) by (nonlinear_arith);
}

/// Clamp `x` into the interval `[lo, hi]` (for `lo <= hi`).
pub open spec fn clamp_int(x: int, lo: int, hi: int) -> int {
    if x < lo {
        lo
    } else if x > hi {
        hi
    } else {
        x
    }
}

/// Computes the squared distance between two in-bounds points exactly.
pub fn dist_sq_exec(p: &Vect, q: &Vect) -> (d: i64)
    requires
        in_bounds(*p),
        in_bounds(*q),
    ensures
        d == dist_sq(*p, *q),
        0 <= d <= 8_000_000_000_000_000_000,
{
    let dx: i64 = p.x - q.x;
    let dy: i64 = p.y - q.y;
    assert(0 <= dx * dx <= 4_000_000_000_000_000_000) by (nonlinear_arith)
        requires
            -2_000_000_000 <= dx <= 2_000_000_000;
    assert(0 <= dy * dy <= 4_000_000_000_000_000_000) by (nonlinear_arith)
        requires
            -2_000_000_000 <= dy <= 2_000_000_000;
    dx * dx + dy * dy
}

/// The floor of the nonnegative square root of `n`.
pub open spec fn sqrt_floor(n: nat) -> nat
    decreases n,
{
    if n == 0 {
        0
    } else {
        let r = sqrt_floor((n - 1) as nat);
        if (r + 1) * (r + 1) <= n {
            r + 1
        } else {
            r
        }
    }
}

/// `sqrt_floor(n)` is the unique `r` with `r * r <= n < (r + 1) * (r + 1)`.
pub proof fn lemma_sqrt_floor_bounds(n: nat)
    ensures
        sqrt_floor(n) * sqrt_floor(n) <= n,
        n < (sqrt_floor(n) + 1) * (sqrt_floor(n) + 1),
    decreases n,
{
    if n == 0 {
        let s = sqrt_floor(n);
        assert(s == 0);
        assert((s + 1) * (s + 1) == 1) by (nonlinear_arith)
            requires
                s == 0;
    } else {
        lemma_sqrt_floor_bounds((n - 1) as nat);
        let r = sqrt_floor((n - 1) as nat);
        if (r + 1) * (r + 1) <= n {
            assert(sqrt_floor(n) == r + 1);
            assert(n < (r + 2) * (r + 2)) by (nonlinear_arith)
                requires
                    n - 1 < (r + 1) * (r + 1),
                    0 <= r;
        } else {
            assert(sqrt_floor(n) == r);
            assert(r * r <= n - 1);
        }
    }
}

/// Any `r` that brackets `n` between consecutive squares is `sqrt_floor(n)`.
pub proof fn lemma_sqrt_floor_unique(n: nat, r: nat)
    requires
        r * r <= n,
        n < (r + 1) * (r + 1),
    ensures
        r == sqrt_floor(n),
{
    lemma_sqrt_floor_bounds(n);
    let s = sqrt_floor(n);
    if r < s {
        assert(false) by (nonlinear_arith)
            requires
                r < s,
                s * s <= n,
                n < (r + 1) * (r + 1),
                0 <= r,
                0 <= s;
    }
    if s < r {
        assert(false) by (nonlinear_arith)
            requires
                s < r,
                r * r <= n,
                n < (s + 1) * (s + 1),
                0 <= r,
                0 <= s;
    }
}

/// Computes the floor of the square root of `n` by bisection.
pub fn isqrt_u128(n: u128) -> (r: u128)
    ensures
        r == sqrt_floor(n as nat),
{
    let mut lo: u128 = 0;
    let mut hi: u128 = 18_446_744_073_709_551_615;
    while lo < hi
        invariant
            lo <= hi <= 18_446_744_073_709_551_615,
            lo * lo <= n,
            n < (hi + 1) * (hi + 1),
        decreases hi - lo,
    {
        let mid: u128 = lo + (hi - lo + 1) / 2;
        assert(mid * mid <= u128::MAX) by (nonlinear_arith)
            requires
                0 <= mid <= 18_446_744_073_709_551_615;
        if mid * mid <= n {
            lo = mid;
        } else {
            hi = mid - 1;
        }
    }
    proof {
        lemma_sqrt_floor_unique(n as nat, lo as nat);
    }
    lo
}

} // verus!
