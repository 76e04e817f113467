//! Contacts: recorded interacting particle pairs.
//!
//! A contact names its two participants by `(model index, particle index)`
//! pairs — weak lookup keys into externally owned particle collections —
//! and caches the interpolation weight and gradient computed from the
//! participants' positions at the most recent update pass.  The caches go
//! stale the moment a position changes and stay so until the next pass.
//!
//! A `ParticlesContacts` value is one bucket: the contact lists of one
//! model pair, grouped so that disjoint groups never share a contact and
//! can therefore be refreshed concurrently without locking.

use vstd::prelude::*;

use crate::math::Vect;

verus! {

/// One recorded pair: participants `(i_model, i)` and `(j_model, j)`,
/// with the cached interpolation weight and gradient.
#[derive(Clone, Copy, Debug, PartialEq, Eq, Structural)]
pub struct Contact {
    pub i_model: usize,
    pub i: usize,
    pub j_model: usize,
    pub j: usize,
    pub weight: i64,
    pub gradient: Vect,
}

/// One bucket of contacts for a single model pair, split into groups with
/// no contact shared between groups.
pub struct ParticlesContacts {
    pub contacts: Vec<Vec<Contact>>,
}

} // verus!
