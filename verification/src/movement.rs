//! Where the player's locomotion meets the physics world: grounding, walls
//! and jumps.

use vstd::prelude::*;

verus! {

/// How far below the player the ground is looked for, in thousandths of a
/// unit.
pub const GROUND_REACH: i64 = 1100;

/// How far to each side a wall is looked for, in thousandths of a unit.
pub const WALL_REACH: i64 = 800;

/// The upward impulse of a jump, in thousandths of a unit.
pub const JUMP_IMPULSE: i64 = 15_000;

/// How fast a character moves, in thousandths of a unit per second.
#[derive(Clone, Copy, Debug, PartialEq, Eq, Structural)]
pub struct Movespeed(pub i64);

impl Movespeed {
    /// The speed.
    pub fn get(&self) -> (r: i64)
        ensures
            r == self.0,
    {
        self.0
    }

    /// Sets the speed to `value`.
    pub fn set(&mut self, value: i64)
        ensures
            final(self).0 == value,
    {
        self.0 = value;
    }
}

impl Default for Movespeed {
    /// Five units per second.
    fn default() -> (r: Movespeed)
        ensures
            r.0 == 5000,
    {
        Movespeed(5000)
    }
}

/// The side on which an airborne player touches a wall.
#[derive(Clone, Copy, Debug, PartialEq, Eq, Structural)]
pub enum TouchingWall {
    Left,
    Right,
}

/// What to change on the player after the ground was looked for.
#[derive(Clone, Copy, Debug, PartialEq, Eq, Structural)]
pub struct GroundingChange {
    /// Mark the player as standing on the ground.
    pub set_grounded: bool,
    /// Take the ground mark off the player.
    pub clear_grounded: bool,
    /// Take the wall mark off the player.
    pub clear_wall: bool,
}

/// What follows from the ray cast at the ground: a player who has landed is
/// marked and loses any wall mark; one who has left the ground loses the
/// ground mark.
pub fn handle_grounded(ground_hit: bool, is_grounded: bool) -> (r: GroundingChange)
    ensures
        r == (GroundingChange {
            set_grounded: ground_hit && !is_grounded,
            clear_grounded: !ground_hit && is_grounded,
            clear_wall: ground_hit,
        }),
{
    if ground_hit {
        GroundingChange { set_grounded: !is_grounded, clear_grounded: false, clear_wall: true }
    } else {
        GroundingChange { set_grounded: false, clear_grounded: is_grounded, clear_wall: false }
    }
}

/// Whether the jump button lifts the player: only from the ground, and only
/// on the frame of the press.
pub fn handle_jumping(is_grounded: bool, just_pressed: bool) -> (r: Option<i64>)
    ensures
        r == (if is_grounded && just_pressed {
            Some(JUMP_IMPULSE)
        } else {
            None::<i64>
        }),
{
    if is_grounded && just_pressed {
        Some(JUMP_IMPULSE)
    } else {
        None
    }
}

/// The wall that an airborne player touches, from the rays cast to either
/// side: the left one where both hit.
pub fn handle_wall_detection(right_hit: bool, left_hit: bool) -> (r: Option<TouchingWall>)
    ensures
        r == (if left_hit {
            Some(TouchingWall::Left)
        } else if right_hit {
            Some(TouchingWall::Right)
        } else {
            None::<TouchingWall>
        }),
{
    let mut wall_contact: Option<TouchingWall> = None;
    if right_hit {
        wall_contact = Some(TouchingWall::Right);
    }
    if left_hit {
        wall_contact = Some(TouchingWall::Left);
    }
    wall_contact
}

} // verus!
