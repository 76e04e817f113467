//! The contact update engine.
//!
//! Three operations refresh the cached weight and gradient of every
//! contact from the participants' current positions: fluid–fluid,
//! fluid–boundary and boundary–boundary.  Each is parameterized by a
//! density kernel and a gradient kernel, walks the given buckets in
//! order, and changes nothing but the two cached fields: the pair
//! identities, the grouping and the particle collections are left as
//! they were.
//!
//! The boundary–boundary pass carries an optional short-circuit: when
//! `skip_computed_weights` is set and the first contact of a bucket
//! already holds a non-zero weight, the whole bucket is skipped.  That is
//! sound only while boundary particles never move relative to each other
//! after the first computation; if they do move, the stale caches persist
//! silently.  With the flag off every bucket is always recomputed.

use vstd::prelude::*;

use crate::geometry::Contact;
use crate::geometry::ParticlesContacts;
use crate::kernel::Kernel;
use crate::math::Vect;
use crate::math::valid_radius;
use crate::object::Boundary;
use crate::object::Fluid;
use crate::object::boundaries_wf;
use crate::object::fluids_wf;

verus! {

/// The position of fluid particle `idx` of fluid model `model`.
pub open spec fn fluid_pos(fluids: Seq<Fluid>, model: int, idx: int) -> Vect {
    fluids[model].positions@[idx]
}

/// The position of boundary particle `idx` of boundary model `model`.
pub open spec fn boundary_pos(boundaries: Seq<Boundary>, model: int, idx: int) -> Vect {
    boundaries[model].positions@[idx]
}

/// `c_new` is `c_old` with its two cached fields recomputed from the
/// positions `pi` and `pj`: the weight by the density kernel, the
/// gradient by the gradient kernel, and the pair identity untouched.
pub open spec fn refreshed_from<KD: Kernel, KG: Kernel>(
    c_old: Contact,
    c_new: Contact,
    pi: Vect,
    pj: Vect,
    r: i64,
) -> bool {
    &&& c_new.i_model == c_old.i_model
    &&& c_new.i == c_old.i
    &&& c_new.j_model == c_old.j_model
    &&& c_new.j == c_old.j
    &&& c_new.weight == KD::density_at(pi, pj, r)
    &&& c_new.gradient.x == KG::gradient_at(pi, pj, r).0
    &&& c_new.gradient.y == KG::gradient_at(pi, pj, r).1
}

/// Both participants of `c` name a fluid model and particle that exist.
pub open spec fn ff_indices_valid(c: Contact, fluids: Seq<Fluid>) -> bool {
    &&& c.i_model < fluids.len()
    &&& c.j_model < fluids.len()
    &&& c.i < fluids[c.i_model as int].positions@.len()
    &&& c.j < fluids[c.j_model as int].positions@.len()
}

/// The first participant of `c` is a fluid particle that exists and the
/// second a boundary particle that exists.
pub open spec fn fb_indices_valid(
    c: Contact,
    fluids: Seq<Fluid>,
    boundaries: Seq<Boundary>,
) -> bool {
    &&& c.i_model < fluids.len()
    &&& c.j_model < boundaries.len()
    &&& c.i < fluids[c.i_model as int].positions@.len()
    &&& c.j < boundaries[c.j_model as int].positions@.len()
}

/// Both participants of `c` name a boundary model and particle that exist.
pub open spec fn bb_indices_valid(c: Contact, boundaries: Seq<Boundary>) -> bool {
    &&& c.i_model < boundaries.len()
    &&& c.j_model < boundaries.len()
    &&& c.i < boundaries[c.i_model as int].positions@.len()
    &&& c.j < boundaries[c.j_model as int].positions@.len()
}

/// `c_new` is `c_old` refreshed from the current fluid positions.
pub open spec fn ff_refreshed<KD: Kernel, KG: Kernel>(
    c_old: Contact,
    c_new: Contact,
    fluids: Seq<Fluid>,
    r: i64,
) -> bool {
    refreshed_from::<KD, KG>(
        c_old,
        c_new,
        fluid_pos(fluids, c_old.i_model as int, c_old.i as int),
        fluid_pos(fluids, c_old.j_model as int, c_old.j as int),
        r,
    )
}

/// `c_new` is `c_old` refreshed from the current fluid and boundary positions.
pub open spec fn fb_refreshed<KD: Kernel, KG: Kernel>(
    c_old: Contact,
    c_new: Contact,
    fluids: Seq<Fluid>,
    boundaries: Seq<Boundary>,
    r: i64,
) -> bool {
    refreshed_from::<KD, KG>(
        c_old,
        c_new,
        fluid_pos(fluids, c_old.i_model as int, c_old.i as int),
        boundary_pos(boundaries, c_old.j_model as int, c_old.j as int),
        r,
    )
}

/// `c_new` is `c_old` refreshed from the current boundary positions.
pub open spec fn bb_refreshed<KD: Kernel, KG: Kernel>(
    c_old: Contact,
    c_new: Contact,
    boundaries: Seq<Boundary>,
    r: i64,
) -> bool {
    refreshed_from::<KD, KG>(
        c_old,
        c_new,
        boundary_pos(boundaries, c_old.i_model as int, c_old.i as int),
        boundary_pos(boundaries, c_old.j_model as int, c_old.j as int),
        r,
    )
}

/// Every contact of the group names particles that exist (fluid–fluid).
pub open spec fn group_ff_valid(g: Vec<Contact>, fluids: Seq<Fluid>) -> bool {
    forall|k: int| 0 <= k < g@.len() ==> ff_indices_valid(#[trigger] g@[k], fluids)
}

/// Every contact of the group names particles that exist (fluid–boundary).
pub open spec fn group_fb_valid(
    g: Vec<Contact>,
    fluids: Seq<Fluid>,
    boundaries: Seq<Boundary>,
) -> bool {
    forall|k: int| 0 <= k < g@.len() ==> fb_indices_valid(#[trigger] g@[k], fluids, boundaries)
}

/// Every contact of the group names particles that exist (boundary–boundary).
pub open spec fn group_bb_valid(g: Vec<Contact>, boundaries: Seq<Boundary>) -> bool {
    forall|k: int| 0 <= k < g@.len() ==> bb_indices_valid(#[trigger] g@[k], boundaries)
}

/// Every contact of the bucket names particles that exist (fluid–fluid).
pub open spec fn bucket_ff_valid(b: ParticlesContacts, fluids: Seq<Fluid>) -> bool {
    forall|g: int| 0 <= g < b.contacts@.len() ==> group_ff_valid(#[trigger] b.contacts@[g], fluids)
}

/// Every contact of the bucket names particles that exist (fluid–boundary).
pub open spec fn bucket_fb_valid(
    b: ParticlesContacts,
    fluids: Seq<Fluid>,
    boundaries: Seq<Boundary>,
) -> bool {
    forall|g: int|
        0 <= g < b.contacts@.len() ==> group_fb_valid(#[trigger] b.contacts@[g], fluids, boundaries)
}

/// Every contact of the bucket names particles that exist (boundary–boundary).
pub open spec fn bucket_bb_valid(b: ParticlesContacts, boundaries: Seq<Boundary>) -> bool {
    forall|g: int|
        0 <= g < b.contacts@.len() ==> group_bb_valid(#[trigger] b.contacts@[g], boundaries)
}

/// Every contact of `new_g` is the matching contact of `old_g` refreshed
/// from the current fluid positions.
pub open spec fn group_ff_refreshed<KD: Kernel, KG: Kernel>(
    old_g: Vec<Contact>,
    new_g: Vec<Contact>,
    fluids: Seq<Fluid>,
    r: i64,
) -> bool {
    &&& new_g@.len() == old_g@.len()
    &&& forall|k: int|
        0 <= k < old_g@.len() ==> ff_refreshed::<KD, KG>(old_g@[k], #[trigger] new_g@[k], fluids, r)
}

/// Every contact of `new_g` is the matching contact of `old_g` refreshed
/// from the current fluid and boundary positions.
pub open spec fn group_fb_refreshed<KD: Kernel, KG: Kernel>(
    old_g: Vec<Contact>,
    new_g: Vec<Contact>,
    fluids: Seq<Fluid>,
    boundaries: Seq<Boundary>,
    r: i64,
) -> bool {
    &&& new_g@.len() == old_g@.len()
    &&& forall|k: int|
        0 <= k < old_g@.len() ==> fb_refreshed::<KD, KG>(
            old_g@[k],
            #[trigger] new_g@[k],
            fluids,
            boundaries,
            r,
        )
}

/// Every contact of `new_g` is the matching contact of `old_g` refreshed
/// from the current boundary positions.
pub open spec fn group_bb_refreshed<KD: Kernel, KG: Kernel>(
    old_g: Vec<Contact>,
    new_g: Vec<Contact>,
    boundaries: Seq<Boundary>,
    r: i64,
) -> bool {
    &&& new_g@.len() == old_g@.len()
    &&& forall|k: int|
        0 <= k < old_g@.len() ==> bb_refreshed::<KD, KG>(
            old_g@[k],
            #[trigger] new_g@[k],
            boundaries,
            r,
        )
}

/// Every group of `new_b` is the matching group of `old_b` with every
/// contact refreshed (fluid–fluid).
pub open spec fn bucket_ff_refreshed<KD: Kernel, KG: Kernel>(
    old_b: ParticlesContacts,
    new_b: ParticlesContacts,
    fluids: Seq<Fluid>,
    r: i64,
) -> bool {
    &&& new_b.contacts@.len() == old_b.contacts@.len()
    &&& forall|g: int|
        0 <= g < old_b.contacts@.len() ==> group_ff_refreshed::<KD, KG>(
            old_b.contacts@[g],
            #[trigger] new_b.contacts@[g],
            fluids,
            r,
        )
}

/// Every group of `new_b` is the matching group of `old_b` with every
/// contact refreshed (fluid–boundary).
pub open spec fn bucket_fb_refreshed<KD: Kernel, KG: Kernel>(
    old_b: ParticlesContacts,
    new_b: ParticlesContacts,
    fluids: Seq<Fluid>,
    boundaries: Seq<Boundary>,
    r: i64,
) -> bool {
    &&& new_b.contacts@.len() == old_b.contacts@.len()
    &&& forall|g: int|
        0 <= g < old_b.contacts@.len() ==> group_fb_refreshed::<KD, KG>(
            old_b.contacts@[g],
            #[trigger] new_b.contacts@[g],
            fluids,
            boundaries,
            r,
        )
}

/// Every group of `new_b` is the matching group of `old_b` with every
/// contact refreshed (boundary–boundary).
pub open spec fn bucket_bb_refreshed<KD: Kernel, KG: Kernel>(
    old_b: ParticlesContacts,
    new_b: ParticlesContacts,
    boundaries: Seq<Boundary>,
    r: i64,
) -> bool {
    &&& new_b.contacts@.len() == old_b.contacts@.len()
    &&& forall|g: int|
        0 <= g < old_b.contacts@.len() ==> group_bb_refreshed::<KD, KG>(
            old_b.contacts@[g],
            #[trigger] new_b.contacts@[g],
            boundaries,
            r,
        )
}

/// The bucket holds a first group with a first contact.
pub open spec fn has_first_contact(b: ParticlesContacts) -> bool {
    b.contacts@.len() > 0 && b.contacts@[0]@.len() > 0
}

/// The short-circuit test: with the optimization enabled, a bucket whose
/// first contact already carries a non-zero weight is skipped whole.
pub open spec fn skip_bucket(enabled: bool, b: ParticlesContacts) -> bool {
    enabled && has_first_contact(b) && b.contacts@[0]@[0].weight != 0
}

/// Decides whether the boundary–boundary pass may skip this bucket.
pub fn should_skip_weight_computation(enabled: bool, contacts: &ParticlesContacts) -> (skip:
    bool)
    requires
        enabled ==> has_first_contact(*contacts),
    ensures
        skip == skip_bucket(enabled, *contacts),
{
    if !enabled {
        false
    } else {
        let first_group: &Vec<Contact> = &contacts.contacts[0];
        let first: &Contact = &first_group[0];
        first.weight != 0
    }
}

/// Refreshes every contact of one fluid–fluid group in place.
#[verifier::loop_isolation(false)]
fn update_ff_group<KD: Kernel, KG: Kernel>(
    kernel_radius: i64,
    group: &mut Vec<Contact>,
    fluids: &Vec<Fluid>,
)
    requires
        valid_radius(kernel_radius),
        fluids_wf(fluids@),
        group_ff_valid(*old(group), fluids@),
    ensures
        group_ff_refreshed::<KD, KG>(*old(group), *final(group), fluids@, kernel_radius),
{
    let n = group.len();
    let mut k: usize = 0;
    while k < n
        invariant
            k <= n,
            group@.len() == n,
            forall|t: int|
                k <= t < n ==> #[trigger] group@[t] == old(group)@[t],
            forall|t: int|
                0 <= t < k ==> ff_refreshed::<KD, KG>(
                    old(group)@[t],
                    #[trigger] group@[t],
                    fluids@,
                    kernel_radius,
                ),
        decreases n - k,
    {
        let c = group[k];
        let fluid1 = &fluids[c.i_model];
        let pi = fluid1.positions[c.i];
        let fluid2 = &fluids[c.j_model];
        let pj = fluid2.positions[c.j];
        let w = KD::points_apply(&pi, &pj, kernel_radius);
        let grad = KG::points_apply_diff1(&pi, &pj, kernel_radius);
        group[k] = Contact {
            i_model: c.i_model,
            i: c.i,
            j_model: c.j_model,
            j: c.j,
            weight: w,
            gradient: grad,
        };
        k += 1;
    }
}

/// Refreshes every contact of one fluid–boundary group in place.
#[verifier::loop_isolation(false)]
fn update_fb_group<KD: Kernel, KG: Kernel>(
    kernel_radius: i64,
    group: &mut Vec<Contact>,
    fluids: &Vec<Fluid>,
    boundaries: &Vec<Boundary>,
)
    requires
        valid_radius(kernel_radius),
        fluids_wf(fluids@),
        boundaries_wf(boundaries@),
        group_fb_valid(*old(group), fluids@, boundaries@),
    ensures
        group_fb_refreshed::<KD, KG>(
            *old(group),
            *final(group),
            fluids@,
            boundaries@,
            kernel_radius,
        ),
{
    let n = group.len();
    let mut k: usize = 0;
    while k < n
        invariant
            k <= n,
            group@.len() == n,
            forall|t: int|
                k <= t < n ==> #[trigger] group@[t] == old(group)@[t],
            forall|t: int|
                0 <= t < k ==> fb_refreshed::<KD, KG>(
                    old(group)@[t],
                    #[trigger] group@[t],
                    fluids@,
                    boundaries@,
                    kernel_radius,
                ),
        decreases n - k,
    {
        let c = group[k];
        let fluid1 = &fluids[c.i_model];
        let pi = fluid1.positions[c.i];
        let bound2 = &boundaries[c.j_model];
        let pj = bound2.positions[c.j];
        let w = KD::points_apply(&pi, &pj, kernel_radius);
        let grad = KG::points_apply_diff1(&pi, &pj, kernel_radius);
        group[k] = Contact {
            i_model: c.i_model,
            i: c.i,
            j_model: c.j_model,
            j: c.j,
            weight: w,
            gradient: grad,
        };
        k += 1;
    }
}

/// Refreshes every contact of one boundary–boundary group in place.
#[verifier::loop_isolation(false)]
fn update_bb_group<KD: Kernel, KG: Kernel>(
    kernel_radius: i64,
    group: &mut Vec<Contact>,
    boundaries: &Vec<Boundary>,
)
    requires
        valid_radius(kernel_radius),
        boundaries_wf(boundaries@),
        group_bb_valid(*old(group), boundaries@),
    ensures
        group_bb_refreshed::<KD, KG>(*old(group), *final(group), boundaries@, kernel_radius),
{
    let n = group.len();
    let mut k: usize = 0;
    while k < n
        invariant
            k <= n,
            group@.len() == n,
            forall|t: int|
                k <= t < n ==> #[trigger] group@[t] == old(group)@[t],
            forall|t: int|
                0 <= t < k ==> bb_refreshed::<KD, KG>(
                    old(group)@[t],
                    #[trigger] group@[t],
                    boundaries@,
                    kernel_radius,
                ),
        decreases n - k,
    {
        let c = group[k];
        let bound1 = &boundaries[c.i_model];
        let pi = bound1.positions[c.i];
        let bound2 = &boundaries[c.j_model];
        let pj = bound2.positions[c.j];
        let w = KD::points_apply(&pi, &pj, kernel_radius);
        let grad = KG::points_apply_diff1(&pi, &pj, kernel_radius);
        group[k] = Contact {
            i_model: c.i_model,
            i: c.i,
            j_model: c.j_model,
            j: c.j,
            weight: w,
            gradient: grad,
        };
        k += 1;
    }
}

/// Refreshes one fluid–fluid bucket in place.
#[verifier::loop_isolation(false)]
pub fn update_ff_bucket<KD: Kernel, KG: Kernel>(
    kernel_radius: i64,
    bucket: &mut ParticlesContacts,
    fluids: &Vec<Fluid>,
)
    requires
        valid_radius(kernel_radius),
        fluids_wf(fluids@),
        bucket_ff_valid(*old(bucket), fluids@),
    ensures
        bucket_ff_refreshed::<KD, KG>(*old(bucket), *final(bucket), fluids@, kernel_radius),
{
    let n = bucket.contacts.len();
    let mut g: usize = 0;
    while g < n
        invariant
            g <= n,
            bucket.contacts@.len() == n,
            forall|t: int|
                g <= t < n ==> #[trigger] bucket.contacts@[t] == old(bucket).contacts@[t],
            forall|t: int|
                0 <= t < g ==> group_ff_refreshed::<KD, KG>(
                    old(bucket).contacts@[t],
                    #[trigger] bucket.contacts@[t],
                    fluids@,
                    kernel_radius,
                ),
        decreases n - g,
    {
        update_ff_group::<KD, KG>(kernel_radius, &mut bucket.contacts[g], fluids);
        g += 1;
    }
}

/// Refreshes one fluid–boundary bucket in place.
#[verifier::loop_isolation(false)]
pub fn update_fb_bucket<KD: Kernel, KG: Kernel>(
    kernel_radius: i64,
    bucket: &mut ParticlesContacts,
    fluids: &Vec<Fluid>,
    boundaries: &Vec<Boundary>,
)
    requires
        valid_radius(kernel_radius),
        fluids_wf(fluids@),
        boundaries_wf(boundaries@),
        bucket_fb_valid(*old(bucket), fluids@, boundaries@),
    ensures
        bucket_fb_refreshed::<KD, KG>(
            *old(bucket),
            *final(bucket),
            fluids@,
            boundaries@,
            kernel_radius,
        ),
{
    let n = bucket.contacts.len();
    let mut g: usize = 0;
    while g < n
        invariant
            g <= n,
            bucket.contacts@.len() == n,
            forall|t: int|
                g <= t < n ==> #[trigger] bucket.contacts@[t] == old(bucket).contacts@[t],
            forall|t: int|
                0 <= t < g ==> group_fb_refreshed::<KD, KG>(
                    old(bucket).contacts@[t],
                    #[trigger] bucket.contacts@[t],
                    fluids@,
                    boundaries@,
                    kernel_radius,
                ),
        decreases n - g,
    {
        update_fb_group::<KD, KG>(kernel_radius, &mut bucket.contacts[g], fluids, boundaries);
        g += 1;
    }
}

/// Refreshes one boundary–boundary bucket in place.
#[verifier::loop_isolation(false)]
pub fn update_bb_bucket<KD: Kernel, KG: Kernel>(
    kernel_radius: i64,
    bucket: &mut ParticlesContacts,
    boundaries: &Vec<Boundary>,
)
    requires
        valid_radius(kernel_radius),
        boundaries_wf(boundaries@),
        bucket_bb_valid(*old(bucket), boundaries@),
    ensures
        bucket_bb_refreshed::<KD, KG>(*old(bucket), *final(bucket), boundaries@, kernel_radius),
{
    let n = bucket.contacts.len();
    let mut g: usize = 0;
    while g < n
        invariant
            g <= n,
            bucket.contacts@.len() == n,
            forall|t: int|
                g <= t < n ==> #[trigger] bucket.contacts@[t] == old(bucket).contacts@[t],
            forall|t: int|
                0 <= t < g ==> group_bb_refreshed::<KD, KG>(
                    old(bucket).contacts@[t],
                    #[trigger] bucket.contacts@[t],
                    boundaries@,
                    kernel_radius,
                ),
        decreases n - g,
    {
        update_bb_group::<KD, KG>(kernel_radius, &mut bucket.contacts[g], boundaries);
        g += 1;
    }
}

/// Refreshes every fluid–fluid and fluid–boundary contact from the
/// current particle positions.  The pair identities, the grouping and the
/// particle collections are untouched.
#[verifier::loop_isolation(false)]
pub fn update_fluid_contacts<KD: Kernel, KG: Kernel>(
    kernel_radius: i64,
    fluid_fluid_contacts: &mut Vec<ParticlesContacts>,
    fluid_boundary_contacts: &mut Vec<ParticlesContacts>,
    fluids: &Vec<Fluid>,
    boundaries: &Vec<Boundary>,
)
    requires
        valid_radius(kernel_radius),
        fluids_wf(fluids@),
        boundaries_wf(boundaries@),
        forall|b: int|
            0 <= b < old(fluid_fluid_contacts)@.len() ==> bucket_ff_valid(
                #[trigger] old(fluid_fluid_contacts)@[b],
                fluids@,
            ),
        forall|b: int|
            0 <= b < old(fluid_boundary_contacts)@.len() ==> bucket_fb_valid(
                #[trigger] old(fluid_boundary_contacts)@[b],
                fluids@,
                boundaries@,
            ),
    ensures
        final(fluid_fluid_contacts)@.len() == old(fluid_fluid_contacts)@.len(),
        final(fluid_boundary_contacts)@.len() == old(fluid_boundary_contacts)@.len(),
        forall|b: int|
            0 <= b < old(fluid_fluid_contacts)@.len() ==> bucket_ff_refreshed::<KD, KG>(
                old(fluid_fluid_contacts)@[b],
                #[trigger] final(fluid_fluid_contacts)@[b],
                fluids@,
                kernel_radius,
            ),
        forall|b: int|
            0 <= b < old(fluid_boundary_contacts)@.len() ==> bucket_fb_refreshed::<KD, KG>(
                old(fluid_boundary_contacts)@[b],
                #[trigger] final(fluid_boundary_contacts)@[b],
                fluids@,
                boundaries@,
                kernel_radius,
            ),
{
    let n_ff = fluid_fluid_contacts.len();
    let mut b: usize = 0;
    while b < n_ff
        invariant
            b <= n_ff,
            fluid_fluid_contacts@.len() == n_ff,
            forall|t: int|
                b <= t < n_ff ==> #[trigger] fluid_fluid_contacts@[t] == old(
                    fluid_fluid_contacts,
                )@[t],
            forall|t: int|
                0 <= t < b ==> bucket_ff_refreshed::<KD, KG>(
                    old(fluid_fluid_contacts)@[t],
                    #[trigger] fluid_fluid_contacts@[t],
                    fluids@,
                    kernel_radius,
                ),
            fluid_boundary_contacts@ == old(fluid_boundary_contacts)@,
        decreases n_ff - b,
    {
        update_ff_bucket::<KD, KG>(kernel_radius, &mut fluid_fluid_contacts[b], fluids);
        b += 1;
    }
    let n_fb = fluid_boundary_contacts.len();
    let mut b2: usize = 0;
    while b2 < n_fb
        invariant
            b2 <= n_fb,
            fluid_boundary_contacts@.len() == n_fb,
            forall|t: int|
                b2 <= t < n_fb ==> #[trigger] fluid_boundary_contacts@[t] == old(
                    fluid_boundary_contacts,
                )@[t],
            forall|t: int|
                0 <= t < b2 ==> bucket_fb_refreshed::<KD, KG>(
                    old(fluid_boundary_contacts)@[t],
                    #[trigger] fluid_boundary_contacts@[t],
                    fluids@,
                    boundaries@,
                    kernel_radius,
                ),
            fluid_fluid_contacts@.len() == old(fluid_fluid_contacts)@.len(),
            forall|t: int|
                0 <= t < fluid_fluid_contacts@.len() ==> bucket_ff_refreshed::<KD, KG>(
                    old(fluid_fluid_contacts)@[t],
                    #[trigger] fluid_fluid_contacts@[t],
                    fluids@,
                    kernel_radius,
                ),
        decreases n_fb - b2,
    {
        update_fb_bucket::<KD, KG>(
            kernel_radius,
            &mut fluid_boundary_contacts[b2],
            fluids,
            boundaries,
        );
        b2 += 1;
    }
}

/// Refreshes every boundary–boundary contact from the current boundary
/// positions, except that with `skip_computed_weights` set a bucket whose
/// first contact already carries a non-zero weight is left exactly as it
/// was.
#[verifier::loop_isolation(false)]
pub fn update_boundary_contacts<KD: Kernel, KG: Kernel>(
    kernel_radius: i64,
    boundary_boundary_contacts: &mut Vec<ParticlesContacts>,
    boundaries: &Vec<Boundary>,
    skip_computed_weights: bool,
)
    requires
        valid_radius(kernel_radius),
        boundaries_wf(boundaries@),
        forall|b: int|
            0 <= b < old(boundary_boundary_contacts)@.len() ==> bucket_bb_valid(
                #[trigger] old(boundary_boundary_contacts)@[b],
                boundaries@,
            ),
        skip_computed_weights ==> forall|b: int|
            0 <= b < old(boundary_boundary_contacts)@.len() ==> has_first_contact(
                #[trigger] old(boundary_boundary_contacts)@[b],
            ),
    ensures
        final(boundary_boundary_contacts)@.len() == old(boundary_boundary_contacts)@.len(),
        forall|b: int|
            0 <= b < old(boundary_boundary_contacts)@.len() ==> (if skip_bucket(
                skip_computed_weights,
                old(boundary_boundary_contacts)@[b],
            ) {
                final(boundary_boundary_contacts)@[b] == old(boundary_boundary_contacts)@[b]
            } else {
                bucket_bb_refreshed::<KD, KG>(
                    old(boundary_boundary_contacts)@[b],
                    #[trigger] final(boundary_boundary_contacts)@[b],
                    boundaries@,
                    kernel_radius,
                )
            }),
{
    let n = boundary_boundary_contacts.len();
    let mut b: usize = 0;
    while b < n
        invariant
            b <= n,
            boundary_boundary_contacts@.len() == n,
            forall|t: int|
                b <= t < n ==> #[trigger] boundary_boundary_contacts@[t] == old(
                    boundary_boundary_contacts,
                )@[t],
            forall|t: int|
                0 <= t < b ==> (if skip_bucket(
                    skip_computed_weights,
                    old(boundary_boundary_contacts)@[t],
                ) {
                    boundary_boundary_contacts@[t] == old(boundary_boundary_contacts)@[t]
                } else {
                    bucket_bb_refreshed::<KD, KG>(
                        old(boundary_boundary_contacts)@[t],
                        #[trigger] boundary_boundary_contacts@[t],
                        boundaries@,
                        kernel_radius,
                    )
                }),
        decreases n - b,
    {
        let skip = should_skip_weight_computation(
            skip_computed_weights,
            &boundary_boundary_contacts[b],
        );
        if !skip {
            update_bb_bucket::<KD, KG>(
                kernel_radius,
                &mut boundary_boundary_contacts[b],
                boundaries,
            );
        }
        b += 1;
    }
}

} // verus!
