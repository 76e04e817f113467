use sph_core::math::Vect;
use sph_core::object::Fluid;
use sph_core::timestep_manager::SubstepPolicy;
use sph_core::timestep_manager::TimestepManager;

// Time scale: 1_000_000 ticks make one unit of simulated time.
const ONE: i64 = 1_000_000;

fn fluid(velocity: Vect, acceleration: Vect) -> Fluid {
    Fluid {
        positions: vec![Vect { x: 0, y: 0 }],
        velocities: vec![velocity],
        accelerations: vec![acceleration],
    }
}

#[test]
fn full_step_consumes_macro_step_in_one_advance() {
    // For a macro step of 1.0, a single advance consumes the remaining
    // time to exactly 0 and is_done() turns true immediately after;
    // inv_dt() is exactly 1/dt().
    let fluids = vec![fluid(Vect { x: 0, y: 0 }, Vect { x: 0, y: 0 })];
    let mut manager = TimestepManager::new(100);
    manager.reset(ONE);
    assert!(!manager.is_done());
    manager.advance(&fluids);
    assert_eq!(manager.dt(), ONE);
    assert_eq!(manager.inv_dt(), ONE);
    assert_eq!(manager.remaining_time, 0);
    assert!(manager.is_done());
}

#[test]
fn full_step_with_no_fluids_is_still_defined() {
    let fluids: Vec<Fluid> = Vec::new();
    let mut manager = TimestepManager::new(100);
    manager.reset(ONE);
    manager.advance(&fluids);
    assert_eq!(manager.dt(), ONE);
    assert!(manager.is_done());
}

#[test]
fn degenerate_kinematics_give_full_step_under_stability_law() {
    // All-zero velocities and accelerations: the stability-law formula
    // falls back to the full macro step; every value stays defined.
    let fluids = vec![fluid(Vect { x: 0, y: 0 }, Vect { x: 0, y: 0 })];
    let mut manager = TimestepManager::new(100);
    manager.set_policy(SubstepPolicy::CflClamped);
    manager.reset(ONE);
    manager.advance(&fluids);
    assert_eq!(manager.dt(), ONE);
    assert_eq!(manager.inv_dt(), ONE);
    assert!(manager.is_done());
}

#[test]
fn stability_law_clamps_to_lower_bound_for_fast_particles() {
    // One particle moving at 1.0 length unit per time unit with radius
    // 100: the raw stability substep is 80 ticks, which the lower bound
    // total/max_num_substeps = 100_000 overrides.  Ten advances then
    // consume the macro step exactly.
    let fluids = vec![fluid(Vect { x: ONE, y: 0 }, Vect { x: 0, y: 0 })];
    let mut manager = TimestepManager::new(100);
    manager.set_policy(SubstepPolicy::CflClamped);
    manager.reset(ONE);
    let mut advances = 0;
    while !manager.is_done() {
        manager.advance(&fluids);
        assert_eq!(manager.dt(), 100_000);
        assert_eq!(manager.inv_dt(), 10_000_000);
        advances += 1;
        assert!(advances <= 10);
    }
    assert_eq!(advances, 10);
    assert_eq!(manager.remaining_time, 0);
}

#[test]
fn zero_substep_has_zero_reciprocal() {
    // A tiny macro step of 5 ticks with a fast particle: the raw substep
    // and both clamp bounds floor to 0, so dt() is 0 and inv_dt() is
    // exactly 0 rather than an undefined reciprocal.
    let fluids = vec![fluid(Vect { x: ONE, y: 0 }, Vect { x: 0, y: 0 })];
    let mut manager = TimestepManager::new(1);
    manager.set_policy(SubstepPolicy::CflClamped);
    manager.reset(5);
    manager.advance(&fluids);
    assert_eq!(manager.dt(), 0);
    assert_eq!(manager.inv_dt(), 0);
    assert!(!manager.is_done());
    assert_eq!(manager.remaining_time, 5);
}

#[test]
fn reciprocal_is_exact_in_fixed_point() {
    // dt of 0.1 units (100_000 ticks) has the exact fixed-point
    // reciprocal 10.0 (10_000_000 ticks): inv_dt * dt == ONE * ONE.
    let fluids = vec![fluid(Vect { x: ONE, y: 0 }, Vect { x: 0, y: 0 })];
    let mut manager = TimestepManager::new(100);
    manager.set_policy(SubstepPolicy::CflClamped);
    manager.reset(ONE);
    manager.advance(&fluids);
    assert_eq!(
        (manager.inv_dt() as i128) * (manager.dt() as i128),
        (ONE as i128) * (ONE as i128)
    );
}

#[test]
fn new_manager_starts_idle_and_done() {
    let manager = TimestepManager::new(100);
    assert_eq!(manager.dt(), 0);
    assert_eq!(manager.inv_dt(), 0);
    assert!(manager.is_done());
    assert_eq!(manager.policy, SubstepPolicy::FullStep);
    assert_eq!(manager.min_num_substeps, 1);
    assert_eq!(manager.max_num_substeps, 10);
}

#[test]
fn acceleration_enters_the_projected_speed() {
    // At rest but accelerating at 1.0 unit per time unit squared over a
    // remaining time of 1.0: the projected speed equals 1.0, giving the
    // same clamped substep as a particle already moving at 1.0.
    let still_but_accelerating = vec![fluid(Vect { x: 0, y: 0 }, Vect { x: ONE, y: 0 })];
    let mut manager = TimestepManager::new(100);
    manager.set_policy(SubstepPolicy::CflClamped);
    manager.reset(ONE);
    manager.advance(&still_but_accelerating);
    assert_eq!(manager.dt(), 100_000);
}
