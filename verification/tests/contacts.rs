use sph_core::geometry::Contact;
use sph_core::geometry::ParticlesContacts;
use sph_core::helper::should_skip_weight_computation;
use sph_core::helper::update_boundary_contacts;
use sph_core::helper::update_fluid_contacts;
use sph_core::kernel::Poly6Kernel;
use sph_core::kernel::QuadraticKernel;
use sph_core::math::Vect;
use sph_core::object::Boundary;
use sph_core::object::Fluid;

fn contact(i: usize, j: usize) -> Contact {
    Contact {
        i_model: 0,
        i,
        j_model: 0,
        j,
        weight: 0,
        gradient: Vect { x: 0, y: 0 },
    }
}

fn fluid_at_rest(positions: Vec<Vect>) -> Fluid {
    let n = positions.len();
    Fluid {
        positions,
        velocities: vec![Vect { x: 0, y: 0 }; n],
        accelerations: vec![Vect { x: 0, y: 0 }; n],
    }
}

#[test]
fn fluid_fluid_weight_matches_density_kernel() {
    // Two fluid particles at distance 0.5 with radius 1.0 give the fixed
    // non-zero weight 750_000^3; moving one outside the radius and
    // re-running the update drives the weight to exactly 0.
    let mut fluids = vec![fluid_at_rest(vec![
        Vect { x: 0, y: 0 },
        Vect { x: 500, y: 0 },
    ])];
    let boundaries: Vec<Boundary> = Vec::new();
    let mut ff = vec![ParticlesContacts {
        contacts: vec![vec![contact(0, 1)]],
    }];
    let mut fb: Vec<ParticlesContacts> = Vec::new();

    update_fluid_contacts::<Poly6Kernel, Poly6Kernel>(
        1000,
        &mut ff,
        &mut fb,
        &fluids,
        &boundaries,
    );
    let c = ff[0].contacts[0][0];
    assert_eq!(c.weight, 421_875_000_000_000_000);
    assert_eq!((c.i_model, c.i, c.j_model, c.j), (0, 0, 0, 1));

    fluids[0].positions[1] = Vect { x: 1500, y: 0 };
    update_fluid_contacts::<Poly6Kernel, Poly6Kernel>(
        1000,
        &mut ff,
        &mut fb,
        &fluids,
        &boundaries,
    );
    assert_eq!(ff[0].contacts[0][0].weight, 0);
    assert_eq!(ff[0].contacts[0][0].gradient, Vect { x: 0, y: 0 });
}

#[test]
fn fluid_boundary_contacts_mix_density_and_gradient_kernels() {
    // Fluid particle at the origin, boundary particle at distance 0.5
    // (a 3-4-5 triangle).  Density by the sixth-degree kernel, gradient
    // by the quadratic kernel: -2 * (p_i - p_j) = (600, 800).
    let fluids = vec![fluid_at_rest(vec![Vect { x: 0, y: 0 }])];
    let boundaries = vec![Boundary {
        positions: vec![Vect { x: 300, y: 400 }],
    }];
    let mut ff: Vec<ParticlesContacts> = Vec::new();
    let mut fb = vec![ParticlesContacts {
        contacts: vec![vec![contact(0, 0)]],
    }];

    update_fluid_contacts::<Poly6Kernel, QuadraticKernel>(
        1000,
        &mut ff,
        &mut fb,
        &fluids,
        &boundaries,
    );
    let c = fb[0].contacts[0][0];
    assert_eq!(c.weight, 421_875_000_000_000_000);
    assert_eq!((c.gradient.x, c.gradient.y), (600, 800));
}

#[test]
fn boundary_boundary_short_circuit_skips_nonzero_bucket() {
    // With the optimization enabled, a non-zero first weight leaves the
    // entire bucket untouched, stale second contact included.
    let boundaries = vec![Boundary {
        positions: vec![Vect { x: 0, y: 0 }, Vect { x: 500, y: 0 }],
    }];
    let mut first = contact(0, 1);
    first.weight = 7;
    first.gradient = Vect { x: 3, y: 4 };
    let mut second = contact(1, 0);
    second.weight = 11;
    let mut bb = vec![ParticlesContacts {
        contacts: vec![vec![first, second]],
    }];

    update_boundary_contacts::<Poly6Kernel, Poly6Kernel>(1000, &mut bb, &boundaries, true);
    assert_eq!(bb[0].contacts[0][0].weight, 7);
    assert_eq!(bb[0].contacts[0][0].gradient, Vect { x: 3, y: 4 });
    assert_eq!(bb[0].contacts[0][1].weight, 11);
}

#[test]
fn boundary_boundary_recomputes_when_disabled() {
    // With the optimization disabled the fields are always recomputed,
    // even though they are already non-zero.
    let boundaries = vec![Boundary {
        positions: vec![Vect { x: 0, y: 0 }, Vect { x: 500, y: 0 }],
    }];
    let mut first = contact(0, 1);
    first.weight = 7;
    let mut bb = vec![ParticlesContacts {
        contacts: vec![vec![first]],
    }];

    update_boundary_contacts::<Poly6Kernel, Poly6Kernel>(1000, &mut bb, &boundaries, false);
    assert_eq!(bb[0].contacts[0][0].weight, 421_875_000_000_000_000);
}

#[test]
fn boundary_boundary_zero_first_weight_is_recomputed_even_when_enabled() {
    let boundaries = vec![Boundary {
        positions: vec![Vect { x: 0, y: 0 }, Vect { x: 500, y: 0 }],
    }];
    let mut bb = vec![ParticlesContacts {
        contacts: vec![vec![contact(0, 1)]],
    }];

    update_boundary_contacts::<Poly6Kernel, Poly6Kernel>(1000, &mut bb, &boundaries, true);
    assert_eq!(bb[0].contacts[0][0].weight, 421_875_000_000_000_000);
}

#[test]
fn skip_test_reads_first_contact_only_when_enabled() {
    let mut first = contact(0, 1);
    first.weight = 5;
    let bucket = ParticlesContacts {
        contacts: vec![vec![first]],
    };
    assert!(should_skip_weight_computation(true, &bucket));
    assert!(!should_skip_weight_computation(false, &bucket));
    let empty = ParticlesContacts { contacts: Vec::new() };
    assert!(!should_skip_weight_computation(false, &empty));
}
