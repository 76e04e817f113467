//! Smoothing kernels.
//!
//! A kernel turns the separation of two particles into an interpolation
//! weight (`points_apply`) and into the spatial gradient of a (possibly
//! different) smoothing function (`points_apply_diff1`).  The update engine
//! is parameterized independently by a density kernel and a gradient
//! kernel, so the two capabilities may come from different concrete
//! variants.
//!
//! Every implementation carries proof obligations: the weight is symmetric
//! in the two points, never negative, and exactly zero outside the support
//! radius; the gradient is antisymmetric under swapping the two points.

use vstd::prelude::*;

use crate::math::Vect;
use crate::math::dist_sq;
use crate::math::dist_sq_exec;
use crate::math::in_bounds;
use crate::math::lemma_dist_sq_nonneg;
use crate::math::lemma_dist_sq_symmetric;
use crate::math::valid_radius;

verus! {

/// A smoothing kernel: a pure function of two points and a radius.
pub trait Kernel {
    /// The interpolation weight between `p1` and `p2` at radius `r`.
    spec fn density_at(p1: Vect, p2: Vect, r: i64) -> int;

    /// The gradient, with respect to `p1`, of the smoothing function
    /// between `p1` and `p2` at radius `r`, as an `(x, y)` pair.
    spec fn gradient_at(p1: Vect, p2: Vect, r: i64) -> (int, int);

    /// The weight is symmetric in the two points.
    proof fn density_symmetric(p1: Vect, p2: Vect, r: i64)
        ensures
            Self::density_at(p1, p2, r) == Self::density_at(p2, p1, r),
    ;

    /// The weight vanishes when the points lie farther apart than `r`.
    proof fn density_zero_outside(p1: Vect, p2: Vect, r: i64)
        requires
            dist_sq(p1, p2) > r * r,
        ensures
            Self::density_at(p1, p2, r) == 0,
    ;

    /// The weight is never negative.
    proof fn density_nonneg(p1: Vect, p2: Vect, r: i64)
        ensures
            Self::density_at(p1, p2, r) >= 0,
    ;

    /// The gradient is antisymmetric under swapping the two points.
    proof fn gradient_antisymmetric(p1: Vect, p2: Vect, r: i64)
        ensures
            Self::gradient_at(p1, p2, r).0 == -Self::gradient_at(p2, p1, r).0,
            Self::gradient_at(p1, p2, r).1 == -Self::gradient_at(p2, p1, r).1,
    ;

    /// Evaluates the interpolation weight between two points.
    fn points_apply(p1: &Vect, p2: &Vect, kernel_radius: i64) -> (w: i64)
        requires
            in_bounds(*p1),
            in_bounds(*p2),
            valid_radius(kernel_radius),
        ensures
            w == Self::density_at(*p1, *p2, kernel_radius),
    ;

    /// Evaluates the gradient of the smoothing function between two points.
    fn points_apply_diff1(p1: &Vect, p2: &Vect, kernel_radius: i64) -> (g: Vect)
        requires
            in_bounds(*p1),
            in_bounds(*p2),
            valid_radius(kernel_radius),
        ensures
            g.x == Self::gradient_at(*p1, *p2, kernel_radius).0,
            g.y == Self::gradient_at(*p1, *p2, kernel_radius).1,
    ;
}

/// The sixth-degree polynomial bump: weight `(r^2 - d^2)^3` inside the
/// support radius, zero outside.
pub struct Poly6Kernel;

/// A low-degree bump: weight `r^2 - d^2` inside the support radius, zero
/// outside.  Its gradient is sharper near the support boundary than the
/// sixth-degree kernel's, which makes the two natural partners.
pub struct QuadraticKernel;

impl Kernel for Poly6Kernel {
    open spec fn density_at(p1: Vect, p2: Vect, r: i64) -> int {
        let d2 = dist_sq(p1, p2);
        if d2 > r * r {
            0
        } else {
            let m = r * r - d2;
            m * m * m
        }
    }

    open spec fn gradient_at(p1: Vect, p2: Vect, r: i64) -> (int, int) {
        let d2 = dist_sq(p1, p2);
        if d2 > r * r {
            (0, 0)
        } else {
            let m = r * r - d2;
            let c = 6 * (m * m);
            (-(c * (p1.x - p2.x)), -(c * (p1.y - p2.y)))
        }
    }

    proof fn density_symmetric(p1: Vect, p2: Vect, r: i64) {
        lemma_dist_sq_symmetric(p1, p2);
    }

    proof fn density_zero_outside(p1: Vect, p2: Vect, r: i64) {
    }

    proof fn density_nonneg(p1: Vect, p2: Vect, r: i64) {
        let d2 = dist_sq(p1, p2);
        if d2 <= r * r {
            let m = r * r - d2;
            assert(m * m * m >= 0) by (nonlinear_arith)
                requires
                    m >= 0;
        }
    }

    proof fn gradient_antisymmetric(p1: Vect, p2: Vect, r: i64) {
        lemma_dist_sq_symmetric(p1, p2);
        let d2 = dist_sq(p1, p2);
        if d2 <= r * r {
            let m = r * r - d2;
            let c = 6 * (m * m);
            assert(-(c * (p1.x - p2.x)) == -(-(c * (p2.x - p1.x)))) by (nonlinear_arith);
            assert(-(c * (p1.y - p2.y)) == -(-(c * (p2.y - p1.y)))) by (nonlinear_arith);
        }
    }

    fn points_apply(p1: &Vect, p2: &Vect, kernel_radius: i64) -> (w: i64) {
        let d2 = dist_sq_exec(p1, p2);
        assert(0 <= kernel_radius * kernel_radius <= 1_000_000) by (nonlinear_arith)
            requires
                0 < kernel_radius <= 1_000;
        let r2 = kernel_radius * kernel_radius;
        if d2 > r2 {
            0
        } else {
            let m = r2 - d2;
            assert(0 <= m * m * m <= 1_000_000_000_000_000_000) by (nonlinear_arith)
                requires
                    0 <= m <= 1_000_000;
            assert(0 <= m * m <= 1_000_000_000_000) by (nonlinear_arith)
                requires
                    0 <= m <= 1_000_000;
            m * m * m
        }
    }

    fn points_apply_diff1(p1: &Vect, p2: &Vect, kernel_radius: i64) -> (g: Vect) {
        let d2 = dist_sq_exec(p1, p2);
        assert(0 <= kernel_radius * kernel_radius <= 1_000_000) by (nonlinear_arith)
            requires
                0 < kernel_radius <= 1_000;
        let r2 = kernel_radius * kernel_radius;
        if d2 > r2 {
            Vect { x: 0, y: 0 }
        } else {
            let dx = p1.x - p2.x;
            let dy = p1.y - p2.y;
            assert(dx * dx <= d2 && dy * dy <= d2) by (nonlinear_arith)
                requires
                    d2 == dx * dx + dy * dy;
            assert(-1_000 <= dx <= 1_000) by (nonlinear_arith)
                requires
                    dx * dx <= 1_000_000;
            assert(-1_000 <= dy <= 1_000) by (nonlinear_arith)
                requires
                    dy * dy <= 1_000_000;
            let m = r2 - d2;
            assert(0 <= m * m <= 1_000_000_000_000) by (nonlinear_arith)
                requires
                    0 <= m <= 1_000_000;
            let c = 6 * (m * m);
            assert(-6_000_000_000_000_000 <= c * dx <= 6_000_000_000_000_000) by (nonlinear_arith)
                requires
                    0 <= c <= 6_000_000_000_000,
                    -1_000 <= dx <= 1_000;
            assert(-6_000_000_000_000_000 <= c * dy <= 6_000_000_000_000_000) by (nonlinear_arith)
                requires
                    0 <= c <= 6_000_000_000_000,
                    -1_000 <= dy <= 1_000;
            let gx = -(c * dx);
            let gy = -(c * dy);
            Vect { x: gx, y: gy }
        }
    }
}

impl Kernel for QuadraticKernel {
    open spec fn density_at(p1: Vect, p2: Vect, r: i64) -> int {
        let d2 = dist_sq(p1, p2);
        if d2 > r * r {
            0
        } else {
            r * r - d2
        }
    }

    open spec fn gradient_at(p1: Vect, p2: Vect, r: i64) -> (int, int) {
        let d2 = dist_sq(p1, p2);
        if d2 > r * r {
            (0, 0)
        } else {
            (-2 * (p1.x - p2.x), -2 * (p1.y - p2.y))
        }
    }

    proof fn density_symmetric(p1: Vect, p2: Vect, r: i64) {
        lemma_dist_sq_symmetric(p1, p2);
    }

    proof fn density_zero_outside(p1: Vect, p2: Vect, r: i64) {
    }

    proof fn density_nonneg(p1: Vect, p2: Vect, r: i64) {
        lemma_dist_sq_nonneg(p1, p2);
    }

    proof fn gradient_antisymmetric(p1: Vect, p2: Vect, r: i64) {
        lemma_dist_sq_symmetric(p1, p2);
    }

    fn points_apply(p1: &Vect, p2: &Vect, kernel_radius: i64) -> (w: i64) {
        let d2 = dist_sq_exec(p1, p2);
        assert(0 <= kernel_radius * kernel_radius <= 1_000_000) by (nonlinear_arith)
            requires
                0 < kernel_radius <= 1_000;
        let r2 = kernel_radius * kernel_radius;
        if d2 > r2 {
            0
        } else {
            r2 - d2
        }
    }

    fn points_apply_diff1(p1: &Vect, p2: &Vect, kernel_radius: i64) -> (g: Vect) {
        let d2 = dist_sq_exec(p1, p2);
        assert(0 <= kernel_radius * kernel_radius <= 1_000_000) by (nonlinear_arith)
            requires
                0 < kernel_radius <= 1_000;
        let r2 = kernel_radius * kernel_radius;
        if d2 > r2 {
            Vect { x: 0, y: 0 }
        } else {
            let dx = p1.x - p2.x;
            let dy = p1.y - p2.y;
            assert(-4_000_000_000 <= -2 * dx <= 4_000_000_000) by (nonlinear_arith)
                requires
                    -2_000_000_000 <= dx <= 2_000_000_000;
            assert(-4_000_000_000 <= -2 * dy <= 4_000_000_000) by (nonlinear_arith)
                requires
                    -2_000_000_000 <= dy <= 2_000_000_000;
            Vect { x: -2 * dx, y: -2 * dy }
        }
    }
}

} // verus!
