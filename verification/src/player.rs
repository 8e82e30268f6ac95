//! What is known of the player between frames.

use bevy::ecs::entity::Entity;
use vstd::prelude::*;

verus! {

/// The player's own handle, and what the player is dealing with.
#[derive(Clone, Copy, Debug, PartialEq, Eq)]
pub struct PlayerStats {
    pub entity: Entity,
    pub interacting_object: Option<Entity>,
    pub held_object: Option<Entity>,
}

impl PlayerStats {
    /// The record of a player who holds and faces nothing.
    pub fn new(entity: Entity) -> (r: PlayerStats)
        ensures
            r == (PlayerStats { entity, interacting_object: None, held_object: None }),
    {
        PlayerStats { entity, interacting_object: None, held_object: None }
    }

    /// The player's own handle.
    pub fn entity(&self) -> (r: Entity)
        ensures
            r == self.entity,
    {
        self.entity
    }

    /// Forgets what the player was facing.
    pub fn clear_interacted(&mut self)
        ensures
            *final(self) == (PlayerStats { interacting_object: None, ..*old(self) }),
    {
        self.interacting_object = None;
    }

    /// Notes that the player faces `entity`.
    pub fn set_interacted(&mut self, entity: Entity)
        ensures
            *final(self) == (PlayerStats { interacting_object: Some(entity), ..*old(self) }),
    {
        self.interacting_object = Some(entity);
    }
}

} // verus!
