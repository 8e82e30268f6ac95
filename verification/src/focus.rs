//! The ray the player looks along.

use bevy::math::Vec3;
use vstd::prelude::*;
use crate::random::{gen_range, thread_rng};

verus! {

/// How far a shot strays from straight ahead, in thousandths of a degree to
/// the side and upward.
#[derive(Clone, Copy, Debug, PartialEq, Eq, Structural)]
pub struct Jitter {
    pub yaw: i64,
    pub pitch: i64,
}

impl Jitter {
    /// Neither angle is wider than `spread`.
    pub open spec fn within(self, spread: nat) -> bool {
        -spread <= self.yaw <= spread && -spread <= self.pitch <= spread
    }

    /// Draws the stray of one shot under a spread of `spread` thousandths of
    /// a degree: each angle by itself, anywhere from `-spread` to `spread`.
    pub fn sample(spread: u32) -> (r: Jitter)
        ensures
            r.within(spread as nat),
    {
        let reach: i64 = spread as i64;
        let mut rng = thread_rng();
        let yaw: i64 = gen_range(&mut rng, -reach, reach + 1);
        let pitch: i64 = gen_range(&mut rng, -reach, reach + 1);
        Jitter { yaw, pitch }
    }
}

/// Where the camera stands and looks, recomputed from its transform each
/// frame. Shots and interaction probes start here.
#[derive(Clone, Copy, Debug, PartialEq)]
pub struct CameraFocus {
    pub origin: Vec3,
    pub forward: Vec3,
    pub right: Vec3,
}

impl CameraFocus {
    /// The focus of a camera at `origin` that looks along `forward`, with
    /// `right` to its right.
    pub fn new(origin: Vec3, forward: Vec3, right: Vec3) -> (r: CameraFocus)
        ensures
            r == (CameraFocus { origin, forward, right }),
    {
        CameraFocus { origin, forward, right }
    }

    /// The camera's position.
    pub fn origin(&self) -> (r: Vec3)
        ensures
            r == self.origin,
    {
        self.origin
    }

    /// The direction the camera looks in.
    pub fn forward(&self) -> (r: Vec3)
        ensures
            r == self.forward,
    {
        self.forward
    }

    /// The direction to the camera's right.
    pub fn right(&self) -> (r: Vec3)
        ensures
            r == self.right,
    {
        self.right
    }

    /// The direction of the `index`-th shot of a volley: the `index`-th of the
    /// directions sampled for it, or straight ahead where none was sampled.
    pub open spec fn aim(self, sampled: Seq<Vec3>, index: int) -> Vec3 {
        if 0 <= index < sampled.len() {
            sampled[index]
        } else {
            self.forward
        }
    }

    /// The direction of the `index`-th shot of a volley, see [`Self::aim`].
    pub fn aim_at(&self, sampled: &Vec<Vec3>, index: usize) -> (r: Vec3)
        ensures
            r == self.aim(sampled@, index as int),
    {
        if index < sampled.len() {
            sampled[index]
        } else {
            self.forward
        }
    }
}

} // verus!
