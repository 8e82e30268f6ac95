//! The engine's types that pass through this library untouched.

use vstd::prelude::*;

verus! {

/// `bevy::math::Vec3`, a point or direction in the world. Nothing is claimed
/// of its contents: values are only stored, copied and handed back.
#[verifier::external_type_specification]
#[verifier::external_body]
pub struct ExVec3(bevy::math::Vec3);

/// `bevy::ecs::entity::Entity`, the engine's handle of an object in the world.
/// Nothing is claimed of its contents: handles are only stored, copied and
/// handed back.
#[verifier::external_type_specification]
#[verifier::external_body]
pub struct ExEntity(bevy::ecs::entity::Entity);

} // verus!
