//! The entity-data world and the resource registry that scenes work on: legion's
//! `World` and `Resources`, carried through the library as opaque values.
use vstd::prelude::*;

use legion::world::WorldId;
use legion::{Entity, Resources, World};

verus! {

#[verifier::external_type_specification]
#[verifier::external_body]
pub struct ExWorld(legion::World);

#[verifier::external_type_specification]
#[verifier::external_body]
pub struct ExWorldId(legion::world::WorldId);

#[verifier::external_type_specification]
#[verifier::external_body]
pub struct ExEntity(legion::Entity);

#[verifier::external_type_specification]
#[verifier::external_body]
pub struct ExResources(legion::Resources);

/// The entities that a world holds.
pub uninterp spec fn world_entities(w: World) -> Set<Entity>;

/// The identifier that a world was created with.
pub uninterp spec fn world_id(w: World) -> WorldId;

/// Relies on legion's `World::id`, which returns the identifier the world was created
/// with.
#[verifier::external_body]
pub(crate) fn id_of_world(world: &World) -> (r: WorldId)
    ensures
        r == world_id(*world),
{
    world.id()
}

/// Relies on legion's `World::default`: the new world holds no entities, and its
/// identifier is drawn from a process-wide counter that hands out each value once, so it
/// differs from the identifier of any world created before, `existing` among them.
#[verifier::external_body]
#[allow(unused_variables)]
pub(crate) fn fresh_world(existing: WorldId) -> (r: World)
    ensures
        world_entities(r) == Set::<Entity>::empty(),
        world_id(r) != existing,
{
    World::default()
}

} // verus!
