//! The collections of live enemies and particles.
//!
//! Both are `generational_arena::Arena`s: inserting returns a handle, and
//! removing one entry leaves the handles of all others valid. The arena is
//! opaque to the verifier. What it holds is named by [`enemy_entries`] and
//! [`particle_entries`], and the functions below state, without proof, what
//! each call of the arena does to that. Each of them exists once for
//! enemies and once for particles, because what an arena holds has to be
//! named for each kind of entry on its own.
//!
//! The arena counts its removals in a `u64`. The contracts take it that
//! this counter does not run out, and that memory for new entries is there.

use vstd::prelude::*;
use generational_arena::Arena;
use generational_arena::Index;
use crate::enemy::Enemy;
use crate::particle::Particle;

verus! {

/// The handle of an arena entry as plain values: the slot the entry lives in
/// and the generation in which it was inserted.
#[derive(Clone, Copy, Debug, PartialEq, Eq, Structural)]
pub struct Handle {
    pub slot: usize,
    pub generation: u64,
}

/// `generational_arena::Arena`, carried through as an opaque value.
#[verifier::external_type_specification]
#[verifier::external_body]
#[verifier::reject_recursive_types(T)]
pub struct ExArena<T>(Arena<T>);

/// The enemies an arena holds, by handle.
pub uninterp spec fn enemy_entries(arena: Arena<Enemy>) -> Map<Handle, Enemy>;

/// The particles an arena holds, by handle.
pub uninterp spec fn particle_entries(arena: Arena<Particle>) -> Map<Handle, Particle>;

/// Whether `order` lists exactly the handles in `handles`, by rising slot.
pub open spec fn slot_order(order: Seq<Handle>, handles: Set<Handle>) -> bool {
    &&& forall|i: int, j: int| 0 <= i < j < order.len() ==> order[i].slot < order[j].slot
    &&& forall|h: Handle| handles.contains(h) <==> order.contains(h)
}

/// Largest capacity an arena is created with here.
pub const MAX_CAPACITY: usize = 4096;

/// Calls `Arena::with_capacity`. Not verified: the contract claims that the
/// new arena holds nothing.
#[verifier::external_body]
pub(crate) fn enemies_with_capacity(n: usize) -> (r: Arena<Enemy>)
    requires
        n <= MAX_CAPACITY,
    ensures
        enemy_entries(r) =~= Map::empty(),
{
    Arena::with_capacity(n)
}

/// Calls `Arena::insert`. Not verified: the contract claims that the entry
/// is added under a handle that no entry had, that this handle is returned,
/// and that all other entries stay as they are.
#[verifier::external_body]
pub(crate) fn enemies_insert(arena: &mut Arena<Enemy>, value: Enemy) -> (r: Handle)
    ensures
        !enemy_entries(*old(arena)).dom().contains(r),
        enemy_entries(*final(arena)) == enemy_entries(*old(arena)).insert(r, value),
{
    let (slot, generation) = arena.insert(value).into_raw_parts();
    Handle { slot, generation }
}

/// Calls `Arena::remove`. Not verified: the contract claims that the entry
/// under the handle, if there is one, is taken out and returned, and that
/// all other entries stay as they are.
#[verifier::external_body]
pub(crate) fn enemies_remove(arena: &mut Arena<Enemy>, handle: Handle) -> (r: Option<Enemy>)
    ensures
        enemy_entries(*final(arena)) == enemy_entries(*old(arena)).remove(handle),
        r == (if enemy_entries(*old(arena)).dom().contains(handle) {
            Some(enemy_entries(*old(arena))[handle])
        } else {
            None
        }),
{
    arena.remove(Index::from_raw_parts(handle.slot, handle.generation))
}

/// Calls `Arena::get` and copies the entry. Not verified: the contract
/// claims that the entry under the handle is returned, if there is one.
#[verifier::external_body]
pub(crate) fn enemies_get(arena: &Arena<Enemy>, handle: Handle) -> (r: Option<Enemy>)
    ensures
        r == (if enemy_entries(*arena).dom().contains(handle) {
            Some(enemy_entries(*arena)[handle])
        } else {
            None
        }),
{
    arena.get(Index::from_raw_parts(handle.slot, handle.generation)).copied()
}

/// Assigns through `Arena::index_mut`. Not verified: the contract claims
/// that the entry under the handle, which must exist, becomes `value`, and
/// that all other entries stay as they are.
#[verifier::external_body]
pub(crate) fn enemies_set(arena: &mut Arena<Enemy>, handle: Handle, value: Enemy)
    requires
        enemy_entries(*old(arena)).dom().contains(handle),
    ensures
        enemy_entries(*final(arena)) == enemy_entries(*old(arena)).insert(handle, value),
{
    arena[Index::from_raw_parts(handle.slot, handle.generation)] = value;
}

/// Walks `Arena::iter` and collects the handles. Not verified: the contract
/// claims that every entry is visited once, by rising slot.
#[verifier::external_body]
pub(crate) fn enemies_handles(arena: &Arena<Enemy>) -> (r: Vec<Handle>)
    ensures
        slot_order(r@, enemy_entries(*arena).dom()),
{
    let mut handles = Vec::new();
    for (index, _) in arena.iter() {
        let (slot, generation) = index.into_raw_parts();
        handles.push(Handle { slot, generation });
    }
    handles
}

/// Calls `Arena::with_capacity`. Not verified: the contract claims that the
/// new arena holds nothing.
#[verifier::external_body]
pub(crate) fn particles_with_capacity(n: usize) -> (r: Arena<Particle>)
    requires
        n <= MAX_CAPACITY,
    ensures
        particle_entries(r) =~= Map::empty(),
{
    Arena::with_capacity(n)
}

/// Calls `Arena::insert`. Not verified: the contract claims that the entry
/// is added under a handle that no entry had, that this handle is returned,
/// and that all other entries stay as they are.
#[verifier::external_body]
pub(crate) fn particles_insert(arena: &mut Arena<Particle>, value: Particle) -> (r: Handle)
    ensures
        !particle_entries(*old(arena)).dom().contains(r),
        particle_entries(*final(arena)) == particle_entries(*old(arena)).insert(r, value),
{
    let (slot, generation) = arena.insert(value).into_raw_parts();
    Handle { slot, generation }
}

/// Calls `Arena::remove`. Not verified: the contract claims that the entry
/// under the handle, if there is one, is taken out and returned, and that
/// all other entries stay as they are.
#[verifier::external_body]
pub(crate) fn particles_remove(arena: &mut Arena<Particle>, handle: Handle) -> (r: Option<
    Particle,
>)
    ensures
        particle_entries(*final(arena)) == particle_entries(*old(arena)).remove(handle),
        r == (if particle_entries(*old(arena)).dom().contains(handle) {
            Some(particle_entries(*old(arena))[handle])
        } else {
            None
        }),
{
    arena.remove(Index::from_raw_parts(handle.slot, handle.generation))
}

/// Calls `Arena::get` and copies the entry. Not verified: the contract
/// claims that the entry under the handle is returned, if there is one.
#[verifier::external_body]
pub(crate) fn particles_get(arena: &Arena<Particle>, handle: Handle) -> (r: Option<Particle>)
    ensures
        r == (if particle_entries(*arena).dom().contains(handle) {
            Some(particle_entries(*arena)[handle])
        } else {
            None
        }),
{
    arena.get(Index::from_raw_parts(handle.slot, handle.generation)).copied()
}

/// Assigns through `Arena::index_mut`. Not verified: the contract claims
/// that the entry under the handle, which must exist, becomes `value`, and
/// that all other entries stay as they are.
#[verifier::external_body]
pub(crate) fn particles_set(arena: &mut Arena<Particle>, handle: Handle, value: Particle)
    requires
        particle_entries(*old(arena)).dom().contains(handle),
    ensures
        particle_entries(*final(arena)) == particle_entries(*old(arena)).insert(handle, value),
{
    arena[Index::from_raw_parts(handle.slot, handle.generation)] = value;
}

/// Walks `Arena::iter` and collects the handles. Not verified: the contract
/// claims that every entry is visited once, by rising slot.
#[verifier::external_body]
pub(crate) fn particles_handles(arena: &Arena<Particle>) -> (r: Vec<Handle>)
    ensures
        slot_order(r@, particle_entries(*arena).dom()),
{
    let mut handles = Vec::new();
    for (index, _) in arena.iter() {
        let (slot, generation) = index.into_raw_parts();
        handles.push(Handle { slot, generation });
    }
    handles
}

} // verus!
