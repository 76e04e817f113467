//! Particle collections.
//!
//! A collection owns one ordered sequence of particles.  Fluid particles
//! carry a position, a velocity and an acceleration; boundary particles
//! carry a position only.  The update engine and the time-step manager
//! borrow these collections read-only: they never change a particle.

use vstd::prelude::*;

use crate::math::Vect;
use crate::math::in_bounds;
use crate::math::kinematic_in_bounds;

verus! {

/// One fluid body: positions, velocities and accelerations, index-aligned.
pub struct Fluid {
    pub positions: Vec<Vect>,
    pub velocities: Vec<Vect>,
    pub accelerations: Vec<Vect>,
}

/// One boundary body: positions only.
pub struct Boundary {
    pub positions: Vec<Vect>,
}

impl Fluid {
    /// The three particle arrays have one entry per particle and every
    /// entry lies within the fixed-point limits.
    pub open spec fn wf(self) -> bool {
        &&& self.velocities@.len() == self.positions@.len()
        &&& self.accelerations@.len() == self.positions@.len()
        &&& forall|i: int|
            0 <= i < self.positions@.len() ==> in_bounds(#[trigger] self.positions@[i])
        &&& forall|i: int|
            0 <= i < self.velocities@.len() ==> kinematic_in_bounds(
                #[trigger] self.velocities@[i],
            )
        &&& forall|i: int|
            0 <= i < self.accelerations@.len() ==> kinematic_in_bounds(
                #[trigger] self.accelerations@[i],
            )
    }
}

impl Boundary {
    /// Every position lies within the fixed-point limits.
    pub open spec fn wf(self) -> bool {
        forall|i: int| 0 <= i < self.positions@.len() ==> in_bounds(#[trigger] self.positions@[i])
    }
}

/// Every fluid body in the sequence is well formed.
pub open spec fn fluids_wf(fluids: Seq<Fluid>) -> bool {
    forall|m: int| 0 <= m < fluids.len() ==> (#[trigger] fluids[m]).wf()
}

/// Every boundary body in the sequence is well formed.
pub open spec fn boundaries_wf(boundaries: Seq<Boundary>) -> bool {
    forall|m: int| 0 <= m < boundaries.len() ==> (#[trigger] boundaries[m]).wf()
}

} // verus!
