//! The combat and camera core of a first/third-person action game.
//!
//! Every quantity is an integer in a fixed unit: time in nanoseconds, angles
//! in thousandths of a degree, lengths and forces in thousandths of a world
//! unit, money in cents. Positions and directions in the world are carried as
//! the engine's own vectors and never inspected here.

pub mod engine;
pub mod fixed;
pub mod random;
pub mod timer;
pub mod money;
pub mod focus;
pub mod weapon;
pub mod camera;
pub mod inventory;
pub mod player;
pub mod shooting;
pub mod interactions;
pub mod clock;
pub mod colliders;
pub mod movement;
pub mod dialogue;
