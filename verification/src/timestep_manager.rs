//! The adaptive time-step manager.
//!
//! A macro step of `total_step_size` time ticks is consumed by repeated
//! micro-steps: `reset` opens the macro step, `advance` computes the next
//! substep length and subtracts it from the remaining time, and `is_done`
//! reports when the remaining time is used up.  The substep length comes
//! from one of two policies: always take the whole macro step at once
//! (the default), or derive a maximum safe substep from the
//! fastest-moving particle's projected speed over the remaining time —
//! a stability bound of the Courant–Friedrichs–Lewy kind — clamped into
//! the configured substep bounds.  Arithmetic is exact, so every substep
//! is a well-defined integer: a simulation at rest yields the full macro
//! step, never an undefined value.

use vstd::prelude::*;

use crate::math::COORD_LIMIT;
use crate::math::TIME_LIMIT;
use crate::math::TIME_UNIT;
use crate::math::Vect;
use crate::math::clamp_int;
use crate::math::isqrt_u128;
use crate::math::lemma_sqrt_floor_bounds;
use crate::math::sqrt_floor;
use crate::object::Fluid;
use crate::object::fluids_wf;

verus! {

/// Remaining time at or under this tolerance counts as consumed.  The
/// tick arithmetic is exact, so no residue can accumulate and the
/// tolerance is zero ticks.
pub const TIME_EPSILON: i64 = 0;

/// How `advance` derives the next substep length.
#[derive(Clone, Copy, Debug, PartialEq, Eq, Structural)]
pub enum SubstepPolicy {
    /// Consume the whole macro step in one substep.
    FullStep,
    /// The clamped stability-law formula.
    CflClamped,
}

/// Regulates the substep length of the simulation.
pub struct TimestepManager {
    pub cfl_coeff_num: i64,
    pub cfl_coeff_den: i64,
    pub min_num_substeps: u32,
    pub max_num_substeps: u32,
    pub dt: i64,
    pub inv_dt: i64,
    pub total_step_size: i64,
    pub remaining_time: i64,
    pub particle_radius: i64,
    pub policy: SubstepPolicy,
}

/// The squared length of one particle's projected velocity over the
/// remaining time `t`, scaled by `TIME_UNIT`:
/// `|v * TIME_UNIT + a * t|^2`.
pub open spec fn projected_sq(v: Vect, a: Vect, t: int) -> int {
    let sx = v.x * TIME_UNIT + a.x * t;
    let sy = v.y * TIME_UNIT + a.y * t;
    sx * sx + sy * sy
}

/// The largest `projected_sq` among the first `n` particles of `f`.
pub open spec fn fluid_max_sq(f: Fluid, t: int, n: int) -> int
    decreases n,
{
    if n <= 0 {
        0
    } else {
        vstd::math::max(
            fluid_max_sq(f, t, n - 1),
            projected_sq(f.velocities@[n - 1], f.accelerations@[n - 1], t),
        )
    }
}

/// The largest `projected_sq` among all particles of the first `m` fluids.
pub open spec fn fluids_max_sq(fluids: Seq<Fluid>, t: int, m: int) -> int
    decreases m,
{
    if m <= 0 {
        0
    } else {
        vstd::math::max(
            fluids_max_sq(fluids, t, m - 1),
            fluid_max_sq(fluids[m - 1], t, fluids[m - 1].velocities@.len() as int),
        )
    }
}

/// Every velocity and every acceleration of every fluid is zero.
pub open spec fn all_kinematics_zero(fluids: Seq<Fluid>) -> bool {
    forall|m: int, i: int|
        0 <= m < fluids.len() && 0 <= i < fluids[m].velocities@.len()
            ==> (#[trigger] fluids[m].velocities@[i]) == (Vect { x: 0, y: 0 })
                && fluids[m].accelerations@[i] == (Vect { x: 0, y: 0 })
}

/// The reciprocal of a substep length, in fixed point: zero when the
/// substep is zero, else `TIME_UNIT * TIME_UNIT / dt` (the number of
/// ticks representing `1 / (dt / TIME_UNIT)` units of inverse time).
pub open spec fn inv_dt_of(dt: int) -> int {
    if dt == 0 {
        0
    } else {
        (TIME_UNIT * TIME_UNIT) / dt
    }
}

impl TimestepManager {
    /// Configuration and state lie within the fixed-point limits.
    pub open spec fn wf(self) -> bool {
        &&& 1 <= self.cfl_coeff_num <= self.cfl_coeff_den <= 1_000
        &&& 1 <= self.min_num_substeps <= self.max_num_substeps
        &&& self.max_num_substeps <= 1_000_000
        &&& 1 <= self.particle_radius <= COORD_LIMIT
        &&& 0 <= self.total_step_size <= TIME_LIMIT
        &&& -TIME_LIMIT <= self.remaining_time <= self.total_step_size
        &&& 0 <= self.dt <= TIME_LIMIT
        &&& 0 <= self.inv_dt <= TIME_UNIT * TIME_UNIT
    }

    /// The whole macro step has been consumed.
    pub open spec fn spec_is_done(self) -> bool {
        self.remaining_time <= TIME_EPSILON
    }

    /// The state after `reset(total_step_size)`.
    pub open spec fn reset_spec(self, total_step_size: i64) -> TimestepManager {
        TimestepManager {
            total_step_size: total_step_size,
            remaining_time: total_step_size,
            ..self
        }
    }

    /// The unclamped stability-law substep: with `s` the scaled speed of
    /// the fastest projected particle, `2 * particle_radius / (s /
    /// (TIME_UNIT * TIME_UNIT)) * cfl_coeff` ticks; the full macro step
    /// when nothing moves.
    pub open spec fn cfl_raw(self, fluids: Seq<Fluid>) -> int {
        let m = fluids_max_sq(fluids, self.remaining_time as int, fluids.len() as int);
        if m == 0 {
            self.total_step_size as int
        } else {
            (2 * self.particle_radius * self.cfl_coeff_num * TIME_UNIT * TIME_UNIT) / (
            sqrt_floor(m as nat) * self.cfl_coeff_den)
        }
    }

    /// The substep length `advance` will take from this state.
    pub open spec fn substep_spec(self, fluids: Seq<Fluid>) -> int {
        match self.policy {
            SubstepPolicy::FullStep => self.total_step_size as int,
            SubstepPolicy::CflClamped => clamp_int(
                self.cfl_raw(fluids),
                self.total_step_size as int / (self.max_num_substeps as int),
                self.total_step_size as int / (self.min_num_substeps as int),
            ),
        }
    }

    /// The state after `advance(fluids)`.
    pub open spec fn advance_spec(self, fluids: Seq<Fluid>) -> TimestepManager {
        let s = self.substep_spec(fluids);
        TimestepManager {
            dt: s as i64,
            inv_dt: inv_dt_of(s) as i64,
            remaining_time: (self.remaining_time - s) as i64,
            ..self
        }
    }

    /// Initialize a new manager with default parameters: stability
    /// coefficient 2/5, substep bounds 1 to 10, full-step policy.
    pub fn new(particle_radius: i64) -> (m: TimestepManager)
        requires
            1 <= particle_radius <= COORD_LIMIT,
        ensures
            m.wf(),
            m.cfl_coeff_num == 2,
            m.cfl_coeff_den == 5,
            m.min_num_substeps == 1,
            m.max_num_substeps == 10,
            m.dt == 0,
            m.inv_dt == 0,
            m.total_step_size == 0,
            m.remaining_time == 0,
            m.particle_radius == particle_radius,
            m.policy == SubstepPolicy::FullStep,
    {
        TimestepManager {
            cfl_coeff_num: 2,
            cfl_coeff_den: 5,
            min_num_substeps: 1,
            max_num_substeps: 10,
            dt: 0,
            inv_dt: 0,
            total_step_size: 0,
            remaining_time: 0,
            particle_radius: particle_radius,
            policy: SubstepPolicy::FullStep,
        }
    }

    /// Select how the next substeps are derived.
    pub fn set_policy(&mut self, policy: SubstepPolicy)
        ensures
            final(self).policy == policy,
            *final(self) == (TimestepManager { policy: policy, ..*old(self) }),
    {
        self.policy = policy;
    }

    /// Resets the remaining time of the timestep manager.
    pub fn reset(&mut self, total_step_size: i64)
        requires
            old(self).wf(),
            1 <= total_step_size <= TIME_LIMIT,
        ensures
            final(self).wf(),
            *final(self) == old(self).reset_spec(total_step_size),
    {
        self.total_step_size = total_step_size;
        self.remaining_time = total_step_size;
    }

    /// Checks if all the time of this macro step has been consumed.
    pub fn is_done(&self) -> (done: bool)
        ensures
            done == self.spec_is_done(),
    {
        self.remaining_time <= TIME_EPSILON
    }

    /// The current substep length, in time ticks.
    pub fn dt(&self) -> (dt: i64)
        ensures
            dt == self.dt,
    {
        self.dt
    }

    /// The fixed-point reciprocal of the current substep length; zero
    /// when the substep length is zero.
    pub fn inv_dt(&self) -> (inv_dt: i64)
        ensures
            inv_dt == self.inv_dt,
    {
        self.inv_dt
    }

    /// The largest scaled squared projected speed over all fluid
    /// particles, exactly `fluids_max_sq`.
    #[verifier::loop_isolation(false)]
    fn max_speed_sq(&self, fluids: &Vec<Fluid>) -> (m: i128)
        requires
            self.wf(),
            fluids_wf(fluids@),
            1 <= self.remaining_time,
        ensures
            m == fluids_max_sq(fluids@, self.remaining_time as int, fluids@.len() as int),
            0 <= m <= 9_000_000_000_000_000_000_000_000_000_000,
    {
        let t: i128 = self.remaining_time as i128;
        let mut m: i128 = 0;
        let n_fluids = fluids.len();
        let mut f: usize = 0;
        while f < n_fluids
            invariant
                f <= n_fluids,
                m == fluids_max_sq(fluids@, t as int, f as int),
                0 <= m <= 9_000_000_000_000_000_000_000_000_000_000,
            decreases n_fluids - f,
        {
            let fluid = &fluids[f];
            let n = fluid.velocities.len();
            let mut i: usize = 0;
            while i < n
                invariant
                    i <= n,
                    m == vstd::math::max(
                        fluids_max_sq(fluids@, t as int, f as int),
                        fluid_max_sq(fluids@[f as int], t as int, i as int),
                    ),
                    0 <= m <= 9_000_000_000_000_000_000_000_000_000_000,
                decreases n - i,
            {
                let v = fluid.velocities[i];
                let a = fluid.accelerations[i];
                let vx: i128 = v.x as i128;
                let vy: i128 = v.y as i128;
                let ax: i128 = a.x as i128;
                let ay: i128 = a.y as i128;
                assert((TIME_UNIT as i128) == 1_000_000);
                assert(-1_000_000_000_000 <= vx * 1_000_000 <= 1_000_000_000_000)
                    by (nonlinear_arith)
                    requires
                        -1_000_000 <= vx <= 1_000_000;
                assert(-1_000_000_000_000 <= vy * 1_000_000 <= 1_000_000_000_000)
                    by (nonlinear_arith)
                    requires
                        -1_000_000 <= vy <= 1_000_000;
                assert(-1_000_000_000_000_000 <= ax * t <= 1_000_000_000_000_000)
                    by (nonlinear_arith)
                    requires
                        -1_000_000 <= ax <= 1_000_000,
                        1 <= t <= 1_000_000_000;
                assert(-1_000_000_000_000_000 <= ay * t <= 1_000_000_000_000_000)
                    by (nonlinear_arith)
                    requires
                        -1_000_000 <= ay <= 1_000_000,
                        1 <= t <= 1_000_000_000;
                let sx: i128 = vx * (TIME_UNIT as i128) + ax * t;
                let sy: i128 = vy * (TIME_UNIT as i128) + ay * t;
                assert(0 <= sx * sx <= 4_100_000_000_000_000_000_000_000_000_000)
                    by (nonlinear_arith)
                    requires
                        -2_000_000_000_000_000 <= sx <= 2_000_000_000_000_000;
                assert(0 <= sy * sy <= 4_100_000_000_000_000_000_000_000_000_000)
                    by (nonlinear_arith)
                    requires
                        -2_000_000_000_000_000 <= sy <= 2_000_000_000_000_000;
                let sq: i128 = sx * sx + sy * sy;
                if sq > m {
                    m = sq;
                }
                i += 1;
            }
            f += 1;
        }
        m
    }

    /// The unclamped stability-law substep, exactly `cfl_raw`; the full
    /// macro step when no particle moves.
    fn max_substep(&self, fluids: &Vec<Fluid>) -> (s: u128)
        requires
            self.wf(),
            fluids_wf(fluids@),
            1 <= self.remaining_time,
        ensures
            s == self.cfl_raw(fluids@),
            s <= 4_000_000_000_000_000_000_000_000,
    {
        let m = self.max_speed_sq(fluids);
        if m == 0 {
            self.total_step_size as u128
        } else {
            let root: u128 = isqrt_u128(m as u128);
            proof {
                lemma_sqrt_floor_bounds(m as nat);
                assert(root >= 1) by (nonlinear_arith)
                    requires
                        root * root <= m as nat,
                        (m as nat) < (root + 1) * (root + 1),
                        m >= 1;
                assert(root * root <= 9_000_000_000_000_000_000_000_000_000_000 ==> root
                    <= 3_000_000_000_000_000) by (nonlinear_arith);
            }
            let radius_u: u128 = self.particle_radius as u128;
            let cfl_num_u: u128 = self.cfl_coeff_num as u128;
            let cfl_den_u: u128 = self.cfl_coeff_den as u128;
            let tu: u128 = TIME_UNIT as u128;
            assert(tu == 1_000_000);
            assert(2 * radius_u <= 2_000_000_000) by (nonlinear_arith)
                requires
                    1 <= radius_u <= 1_000_000_000;
            let a1: u128 = 2 * radius_u;
            assert(a1 * cfl_num_u <= 2_000_000_000_000) by (nonlinear_arith)
                requires
                    a1 <= 2_000_000_000,
                    1 <= cfl_num_u <= 1_000;
            let a2: u128 = a1 * cfl_num_u;
            assert(a2 * 1_000_000 <= 2_000_000_000_000_000_000) by (nonlinear_arith)
                requires
                    a2 <= 2_000_000_000_000;
            let a3: u128 = a2 * tu;
            assert(a3 * 1_000_000 <= 2_000_000_000_000_000_000_000_000) by (nonlinear_arith)
                requires
                    a3 <= 2_000_000_000_000_000_000;
            let num: u128 = a3 * tu;
            assert(root * cfl_den_u <= 3_000_000_000_000_000_000) by (nonlinear_arith)
                requires
                    root <= 3_000_000_000_000_000,
                    1 <= cfl_den_u <= 1_000;
            assert(root * cfl_den_u >= 1) by (nonlinear_arith)
                requires
                    root >= 1,
                    cfl_den_u >= 1;
            let den: u128 = root * cfl_den_u;
            assert(num == 2 * self.particle_radius * self.cfl_coeff_num * TIME_UNIT * TIME_UNIT)
                by (nonlinear_arith)
                requires
                    num == a3 * tu,
                    a3 == a2 * tu,
                    a2 == a1 * cfl_num_u,
                    a1 == 2 * radius_u,
                    radius_u == self.particle_radius,
                    cfl_num_u == self.cfl_coeff_num,
                    tu == TIME_UNIT,
                    1 <= self.particle_radius,
                    1 <= self.cfl_coeff_num;
            assert(den == sqrt_floor(m as nat) * self.cfl_coeff_den);
            num / den
        }
    }

    /// The next substep length under the configured policy, exactly
    /// `substep_spec`.
    fn compute_substep(&self, fluids: &Vec<Fluid>) -> (s: i64)
        requires
            self.wf(),
            fluids_wf(fluids@),
            1 <= self.remaining_time,
        ensures
            s == self.substep_spec(fluids@),
            0 <= s <= self.total_step_size,
    {
        match self.policy {
            SubstepPolicy::FullStep => self.total_step_size,
            SubstepPolicy::CflClamped => {
                let raw: u128 = self.max_substep(fluids);
                let lo64: u64 = (self.total_step_size as u64) / (self.max_num_substeps as u64);
                let hi64: u64 = (self.total_step_size as u64) / (self.min_num_substeps as u64);
                proof {
                    vstd::arithmetic::div_mod::lemma_div_is_ordered_by_denominator(
                        self.total_step_size as int,
                        self.min_num_substeps as int,
                        self.max_num_substeps as int,
                    );
                    vstd::arithmetic::div_mod::lemma_div_pos_is_pos(
                        self.total_step_size as int,
                        self.max_num_substeps as int,
                    );
                    vstd::arithmetic::div_mod::lemma_div_basics_5(
                        self.total_step_size as int,
                        self.min_num_substeps as int,
                    );
                }
                let lo: u128 = lo64 as u128;
                let hi: u128 = hi64 as u128;
                let clamped: u128 = if raw < lo {
                    lo
                } else if raw > hi {
                    hi
                } else {
                    raw
                };
                clamped as i64
            },
        }
    }

    /// Advance to the next substep: compute the substep length, expose it
    /// and its reciprocal, and subtract it from the remaining time.
    pub fn advance(&mut self, fluids: &Vec<Fluid>)
        requires
            old(self).wf(),
            fluids_wf(fluids@),
            !old(self).spec_is_done(),
        ensures
            final(self).wf(),
            *final(self) == old(self).advance_spec(fluids@),
    {
        let substep = self.compute_substep(fluids);
        self.dt = substep;
        self.inv_dt = if substep == 0 {
            0
        } else {
            (((TIME_UNIT as u64) * (TIME_UNIT as u64)) / (substep as u64)) as i64
        };
        proof {
            if substep != 0 {
                vstd::arithmetic::div_mod::lemma_div_pos_is_pos(
                    TIME_UNIT * TIME_UNIT,
                    substep as int,
                );
                vstd::arithmetic::div_mod::lemma_div_basics_5(
                    TIME_UNIT * TIME_UNIT,
                    substep as int,
                );
            }
        }
        self.remaining_time = self.remaining_time - self.dt;
    }
}

/// Law: under the full-step policy, one `advance` right after a `reset`
/// consumes the whole macro step exactly — the remaining time reaches
/// zero, the manager reports done, and the substep equals the macro step.
pub proof fn lemma_full_step_terminates(m: TimestepManager, total: i64, fluids: Seq<Fluid>)
    requires
        m.wf(),
        m.policy == SubstepPolicy::FullStep,
        1 <= total <= TIME_LIMIT,
    ensures
        ({
            let after = m.reset_spec(total).advance_spec(fluids);
            &&& after.dt == total
            &&& after.remaining_time == 0
            &&& after.spec_is_done()
        }),
{
}

/// Law: the fixed-point reciprocal is exact whenever the substep length
/// divides the squared time scale: `inv_dt * dt` is then one squared
/// time unit.
pub proof fn lemma_inv_dt_exact(dt: int)
    requires
        1 <= dt,
        (TIME_UNIT * TIME_UNIT) % dt == 0,
    ensures
        inv_dt_of(dt) * dt == TIME_UNIT * TIME_UNIT,
{
    vstd::arithmetic::div_mod::lemma_fundamental_div_mod(TIME_UNIT * TIME_UNIT, dt);
    assert(dt * ((TIME_UNIT * TIME_UNIT) / dt) == ((TIME_UNIT * TIME_UNIT) / dt) * dt)
        by (nonlinear_arith);
}

proof fn lemma_fluid_max_sq_zero(fluids: Seq<Fluid>, f: int, t: int, n: int)
    requires
        all_kinematics_zero(fluids),
        0 <= f < fluids.len(),
        0 <= n <= fluids[f].velocities@.len(),
    ensures
        fluid_max_sq(fluids[f], t, n) == 0,
    decreases n,
{
    if n > 0 {
        lemma_fluid_max_sq_zero(fluids, f, t, n - 1);
        let v = fluids[f].velocities@[n - 1];
        let a = fluids[f].accelerations@[n - 1];
        assert(v.x * TIME_UNIT + a.x * t == 0) by (nonlinear_arith)
            requires
                v.x == 0,
                a.x == 0;
        assert(v.y * TIME_UNIT + a.y * t == 0) by (nonlinear_arith)
            requires
                v.y == 0,
                a.y == 0;
    }
}

proof fn lemma_fluids_max_sq_zero(fluids: Seq<Fluid>, t: int, m: int)
    requires
        all_kinematics_zero(fluids),
        0 <= m <= fluids.len(),
    ensures
        fluids_max_sq(fluids, t, m) == 0,
    decreases m,
{
    if m > 0 {
        lemma_fluids_max_sq_zero(fluids, t, m - 1);
        lemma_fluid_max_sq_zero(fluids, m - 1, t, fluids[m - 1].velocities@.len() as int);
    }
}

/// Law: degenerate kinematics are safe.  When every velocity and
/// acceleration is zero (a simulation at rest), the stability-law
/// substep is exactly the full macro step — a defined value, never an
/// overflow or a division by zero — for the default lower substep bound.
pub proof fn lemma_degenerate_substep(m: TimestepManager, fluids: Seq<Fluid>)
    requires
        m.wf(),
        m.min_num_substeps == 1,
        all_kinematics_zero(fluids),
        1 <= m.total_step_size,
    ensures
        m.substep_spec(fluids) == m.total_step_size,
{
    lemma_fluids_max_sq_zero(fluids, m.remaining_time as int, fluids.len() as int);
    match m.policy {
        SubstepPolicy::FullStep => {
        },
        SubstepPolicy::CflClamped => {
            assert(m.cfl_raw(fluids) == m.total_step_size);
            vstd::arithmetic::div_mod::lemma_div_basics_5(
                m.total_step_size as int,
                m.max_num_substeps as int,
            );
        },
    }
}

} // verus!
