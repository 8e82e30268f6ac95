//! What the player is looking at, and what can be done with it.

use bevy::ecs::entity::Entity;
use vstd::prelude::*;
use crate::focus::CameraFocus;
use crate::player::PlayerStats;
use crate::shooting::RayQuery;

verus! {

/// How far the player can reach, in thousandths of a unit.
pub const INTERACTION_REACH: i64 = 2000;

/// What can be done with an object.
#[derive(Clone, Copy, Debug, PartialEq, Eq, Structural)]
pub enum InteractionType {
    Talk,
    Pickup,
}

impl InteractionType {
    /// The words of the prompt.
    pub open spec fn label_spec(self) -> Seq<char> {
        match self {
            InteractionType::Talk => "Talk"@,
            InteractionType::Pickup => "Pick-up"@,
        }
    }

    /// The words of the prompt.
    pub fn label(&self) -> (r: &'static str)
        ensures
            r@ == self.label_spec(),
    {
        match self {
            InteractionType::Talk => "Talk",
            InteractionType::Pickup => "Pick-up",
        }
    }
}

/// The tag of an object that the player can interact with.
#[derive(Clone, Copy, Debug, PartialEq, Eq, Structural)]
pub struct Interactable(pub InteractionType);

/// An object was picked up.
#[derive(Clone, Copy, Debug, PartialEq, Eq)]
pub struct PickupEvent {
    pub object_entity: Entity,
    pub holder_entity: Entity,
}

/// What the interaction ray struck.
#[derive(Clone, Copy, Debug, PartialEq, Eq)]
pub struct ProbeHit {
    pub entity: Entity,
    /// The tag of the struck entity, where it has one.
    pub interaction: Option<InteractionType>,
}

/// The radius of the crosshair for a spread in thousandths of a degree: a
/// tenth of a unit, and a hundredth more for each degree.
pub open spec fn crosshair_radius_spec(spread: nat) -> nat {
    100 + spread / 100
}

/// The radius of the crosshair, in thousandths of a unit.
pub fn crosshair_radius(spread: u32) -> (r: u32)
    ensures
        r == crosshair_radius_spec(spread as nat),
{
    100 + spread / 100
}

/// The ray that looks for something to interact with: from the focus
/// straight ahead as far as the player reaches, through sensors, past the
/// player.
pub fn interaction_query(focus: &CameraFocus, player: Entity) -> (r: RayQuery)
    ensures
        r == (RayQuery {
            origin: focus.origin,
            dir: focus.forward,
            max_distance: INTERACTION_REACH,
            solid: false,
            exclude: player,
        }),
{
    RayQuery {
        origin: focus.origin(),
        dir: focus.forward(),
        max_distance: INTERACTION_REACH,
        solid: false,
        exclude: player,
    }
}

/// The prompt to show for what the ray struck: the interaction of a tagged
/// object, and none for anything else or nothing.
pub open spec fn prompt_for(hit: Option<ProbeHit>) -> Option<InteractionType> {
    match hit {
        Some(hit) => hit.interaction,
        None => None,
    }
}

/// The object that the player faces: the struck one where it is tagged.
pub open spec fn target_for(hit: Option<ProbeHit>) -> Option<Entity> {
    match hit {
        Some(hit) => if hit.interaction is Some {
            Some(hit.entity)
        } else {
            None
        },
        None => None,
    }
}

/// Records what the player faces this frame and returns the prompt to show,
/// if any. Whatever was faced before is forgotten.
pub fn set_interaction_state(stats: &mut PlayerStats, hit: Option<ProbeHit>) -> (r: Option<
    InteractionType,
>)
    ensures
        r == prompt_for(hit),
        *final(stats) == (PlayerStats { interacting_object: target_for(hit), ..*old(stats) }),
{
    match hit {
        Some(hit) => {
            match hit.interaction {
                Some(interaction) => {
                    stats.set_interacted(hit.entity);
                    Some(interaction)
                },
                None => {
                    stats.clear_interacted();
                    None
                },
            }
        },
        None => {
            stats.clear_interacted();
            None
        },
    }
}

} // verus!
