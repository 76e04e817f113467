use sph_core::kernel::Kernel;
use sph_core::kernel::Poly6Kernel;
use sph_core::kernel::QuadraticKernel;
use sph_core::math::Vect;

// Space scale for readability: 1000 ticks make one length unit.

#[test]
fn poly6_weight_at_half_radius() {
    // Two points at distance 0.5 with radius 1.0:
    // weight = (1000^2 - 500^2)^3 = 750_000^3.
    let p = Vect { x: 0, y: 0 };
    let q = Vect { x: 500, y: 0 };
    let w = Poly6Kernel::points_apply(&p, &q, 1000);
    assert_eq!(w, 421_875_000_000_000_000);
}

#[test]
fn poly6_weight_zero_outside_radius() {
    let p = Vect { x: 0, y: 0 };
    let q = Vect { x: 1500, y: 0 };
    assert_eq!(Poly6Kernel::points_apply(&p, &q, 1000), 0);
    let g = Poly6Kernel::points_apply_diff1(&p, &q, 1000);
    assert_eq!((g.x, g.y), (0, 0));
}

#[test]
fn poly6_weight_symmetric() {
    let p = Vect { x: 120, y: -340 };
    let q = Vect { x: -560, y: 80 };
    let w_pq = Poly6Kernel::points_apply(&p, &q, 900);
    let w_qp = Poly6Kernel::points_apply(&q, &p, 900);
    assert_eq!(w_pq, w_qp);
    assert!(w_pq > 0);
}

#[test]
fn poly6_gradient_antisymmetric() {
    let p = Vect { x: 120, y: -340 };
    let q = Vect { x: -560, y: 80 };
    let g_pq = Poly6Kernel::points_apply_diff1(&p, &q, 900);
    let g_qp = Poly6Kernel::points_apply_diff1(&q, &p, 900);
    assert_eq!((g_pq.x, g_pq.y), (-g_qp.x, -g_qp.y));
    assert!(g_pq.x != 0 || g_pq.y != 0);
}

#[test]
fn poly6_gradient_exact_value() {
    // m = 750_000, so the factor is 6 * m^2 = 3_375_000_000_000 and the
    // gradient is -(factor * (0 - 500)) = 1_687_500_000_000_000 in x.
    let p = Vect { x: 0, y: 0 };
    let q = Vect { x: 500, y: 0 };
    let g = Poly6Kernel::points_apply_diff1(&p, &q, 1000);
    assert_eq!((g.x, g.y), (1_687_500_000_000_000, 0));
}

#[test]
fn quadratic_weight_and_gradient_exact_values() {
    let p = Vect { x: 0, y: 0 };
    let q = Vect { x: 500, y: 0 };
    assert_eq!(QuadraticKernel::points_apply(&p, &q, 1000), 750_000);
    let g = QuadraticKernel::points_apply_diff1(&p, &q, 1000);
    assert_eq!((g.x, g.y), (1000, 0));
}

#[test]
fn quadratic_weight_symmetric_and_gradient_antisymmetric() {
    let p = Vect { x: -40, y: 250 };
    let q = Vect { x: 310, y: -90 };
    assert_eq!(
        QuadraticKernel::points_apply(&p, &q, 800),
        QuadraticKernel::points_apply(&q, &p, 800)
    );
    let g_pq = QuadraticKernel::points_apply_diff1(&p, &q, 800);
    let g_qp = QuadraticKernel::points_apply_diff1(&q, &p, 800);
    assert_eq!((g_pq.x, g_pq.y), (-g_qp.x, -g_qp.y));
}

#[test]
fn weight_zero_just_outside_support_boundary() {
    // d = 1001 > r = 1000: outside; d = 1000: on the boundary, weight 0
    // for both kernels because r^2 - d^2 = 0 (and (r^2 - d^2)^3 = 0).
    let p = Vect { x: 0, y: 0 };
    let on = Vect { x: 1000, y: 0 };
    let out = Vect { x: 1001, y: 0 };
    assert_eq!(Poly6Kernel::points_apply(&p, &on, 1000), 0);
    assert_eq!(Poly6Kernel::points_apply(&p, &out, 1000), 0);
    assert_eq!(QuadraticKernel::points_apply(&p, &on, 1000), 0);
    assert_eq!(QuadraticKernel::points_apply(&p, &out, 1000), 0);
}
