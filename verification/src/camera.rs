//! The first/third-person camera rig.
//!
//! Angles are in thousandths of a degree, offsets in thousandths of a world
//! unit, axis values in thousandths of a full deflection, blend factors in
//! millionths, times in nanoseconds.

use bevy::math::Vec3;
use vstd::prelude::*;
use crate::fixed::{approach, approached, lemma_blend_step_bounds};

verus! {

/// The nanoseconds in a second.
pub const NANOS_PER_SECOND: u64 = 1_000_000_000;

/// The blend factor that stands for one.
pub const FULL_BLEND: u32 = 1_000_000;

/// How far up the first-person camera may look.
pub const FIRST_PERSON_PITCH_MAX: i64 = 87_000;

/// How far down the first-person camera may look.
pub const FIRST_PERSON_PITCH_MIN: i64 = -87_000;

/// How far up the third-person camera may look.
pub const THIRD_PERSON_PITCH_MAX: i64 = 20_000;

/// How far down the third-person camera may look.
pub const THIRD_PERSON_PITCH_MIN: i64 = -2_000;

/// Degrees per second that a full deflection of the pointer turns the camera.
pub const POINTER_SENSITIVITY: i64 = 15;

/// Degrees per second that a full deflection of the stick yaws the camera.
pub const STICK_YAW_SENSITIVITY: i64 = 180;

/// Degrees per second that a full deflection of the stick pitches the camera.
pub const STICK_PITCH_SENSITIVITY: i64 = 90;

/// The field of view from the hip.
pub const HIP_FOV: i64 = 45_000;

/// The field of view down the sights.
pub const SIGHTS_FOV: i64 = 20_000;

/// The rate, per second, at which the field of view nears its goal.
pub const FOV_RATE: u64 = 30;

/// The rate, per second, at which the camera nears its desired place.
pub const FOLLOW_RATE: u64 = 20;

/// The rate, per second, at which the weapon model nears its desired place.
pub const VIEW_MODEL_RATE: u64 = 30;

/// How far the weapon model bobs up and down from the hip at most.
pub const SWAY_REACH: i64 = 25;

/// What the camera is used for.
#[derive(Clone, Copy, Debug, PartialEq, Eq, Structural)]
pub enum CameraMode {
    Explore,
    Shoot,
    Cutscene,
}

/// Where the camera sits relative to the player.
#[derive(Clone, Copy, Debug, PartialEq, Eq, Structural)]
pub enum CameraPerspective {
    FirstPerson,
    ThirdPerson,
}

/// How the weapon is held.
#[derive(Clone, Copy, Debug, PartialEq, Eq, Structural)]
pub enum AimMode {
    Hip,
    Sights,
}

impl Default for AimMode {
    /// From the hip.
    fn default() -> (r: AimMode)
        ensures
            r == AimMode::Hip,
    {
        AimMode::Hip
    }
}

/// A displacement along the camera's own axes: to its right, upward and
/// forward.
#[derive(Clone, Copy, Debug, PartialEq, Eq, Structural)]
pub struct Offset {
    pub x: i64,
    pub y: i64,
    pub z: i64,
}

/// The deflection of a two-axis input.
#[derive(Clone, Copy, Debug, PartialEq, Eq, Structural)]
pub struct AxisPair {
    pub x: i32,
    pub y: i32,
}

impl CameraPerspective {
    /// The lowest pitch this perspective allows.
    pub open spec fn pitch_min(self) -> int {
        match self {
            CameraPerspective::FirstPerson => FIRST_PERSON_PITCH_MIN as int,
            CameraPerspective::ThirdPerson => THIRD_PERSON_PITCH_MIN as int,
        }
    }

    /// The highest pitch this perspective allows.
    pub open spec fn pitch_max(self) -> int {
        match self {
            CameraPerspective::FirstPerson => FIRST_PERSON_PITCH_MAX as int,
            CameraPerspective::ThirdPerson => THIRD_PERSON_PITCH_MAX as int,
        }
    }

    /// `pitch` brought within what this perspective allows.
    pub open spec fn clamped(self, pitch: int) -> int {
        if pitch < self.pitch_min() {
            self.pitch_min()
        } else if pitch > self.pitch_max() {
            self.pitch_max()
        } else {
            pitch
        }
    }

    /// The other perspective.
    pub open spec fn toggled(self) -> CameraPerspective {
        match self {
            CameraPerspective::FirstPerson => CameraPerspective::ThirdPerson,
            CameraPerspective::ThirdPerson => CameraPerspective::FirstPerson,
        }
    }

    /// Computes [`Self::clamped`].
    fn clamp_pitch(self, pitch: i128) -> (r: i64)
        ensures
            r == self.clamped(pitch as int),
    {
        let (low, high): (i64, i64) = match self {
            CameraPerspective::FirstPerson => (FIRST_PERSON_PITCH_MIN, FIRST_PERSON_PITCH_MAX),
            CameraPerspective::ThirdPerson => (THIRD_PERSON_PITCH_MIN, THIRD_PERSON_PITCH_MAX),
        };
        if pitch < low as i128 {
            low
        } else if pitch > high as i128 {
            high
        } else {
            pitch as i64
        }
    }
}

/// The turn, in thousandths of a degree, that an axis deflected by `axis`
/// thousandths gives over `delta` nanoseconds at `sensitivity` degrees per
/// second, rounded toward zero.
pub open spec fn turn(sensitivity: int, axis: int, delta: nat) -> int {
    let product = sensitivity * axis * delta;
    if product >= 0 {
        product / (NANOS_PER_SECOND as int)
    } else {
        -((-product) / (NANOS_PER_SECOND as int))
    }
}

/// Computes [`turn`] for the sensitivities of this rig.
fn turn_by(sensitivity: i64, axis: i32, delta: u64) -> (r: i128)
    requires
        0 <= sensitivity <= 1000,
    ensures
        r == turn(sensitivity as int, axis as int, delta as nat),
        -0x1_0000_0000_0000_0000_0000_0000_0000 < r < 0x1_0000_0000_0000_0000_0000_0000_0000,
{
    assert(-0x8000_0000 * 1000 <= sensitivity * axis <= 0x8000_0000 * 1000) by (nonlinear_arith)
        requires
            0 <= sensitivity <= 1000,
            -0x8000_0000 <= axis < 0x8000_0000,
    ;
    let rate: i128 = sensitivity as i128 * axis as i128;
    assert(-0x8000_0000 * 1000 * 0x1_0000_0000_0000_0000 <= rate * delta <= 0x8000_0000 * 1000
        * 0x1_0000_0000_0000_0000) by (nonlinear_arith)
        requires
            -0x8000_0000 * 1000 <= rate <= 0x8000_0000 * 1000,
            0 <= delta < 0x1_0000_0000_0000_0000,
    ;
    let product: i128 = rate * (delta as i128);
    assert(sensitivity * axis * delta == rate * delta);
    if product >= 0 {
        proof {
            vstd::arithmetic::div_mod::lemma_div_nonincreasing(
                product as int,
                NANOS_PER_SECOND as int,
            );
            vstd::arithmetic::div_mod::lemma_div_pos_is_pos(
                product as int,
                NANOS_PER_SECOND as int,
            );
        }
        product / (NANOS_PER_SECOND as i128)
    } else {
        proof {
            vstd::arithmetic::div_mod::lemma_div_nonincreasing(
                -product as int,
                NANOS_PER_SECOND as int,
            );
            vstd::arithmetic::div_mod::lemma_div_pos_is_pos(
                -product as int,
                NANOS_PER_SECOND as int,
            );
        }
        -((-product) / (NANOS_PER_SECOND as i128))
    }
}

/// The blend factor, in millionths and at most one, of a value that nears
/// its goal at `rate` per second over `delta` nanoseconds.
pub open spec fn blend_factor(rate: nat, delta: nat) -> nat {
    let factor = rate * delta / 1000;
    if factor > FULL_BLEND as nat {
        FULL_BLEND as nat
    } else {
        factor
    }
}

/// Computes [`blend_factor`].
pub fn blend_factor_of(rate: u64, delta: u64) -> (r: u32)
    ensures
        r == blend_factor(rate as nat, delta as nat),
        r <= FULL_BLEND,
{
    assert(0 <= rate * delta <= 0xffff_ffff_ffff_ffff * 0xffff_ffff_ffff_ffff) by (nonlinear_arith)
        requires
            0 <= rate <= 0xffff_ffff_ffff_ffff,
            0 <= delta <= 0xffff_ffff_ffff_ffff,
    ;
    let factor: u128 = (rate as u128) * (delta as u128) / 1000;
    if factor > FULL_BLEND as u128 {
        FULL_BLEND
    } else {
        factor as u32
    }
}

/// The camera that follows the player: where it looks, from where, and how
/// wide.
#[derive(Clone, Copy, Debug, PartialEq)]
pub struct PrimaryCamera {
    /// Where the third-person camera sits relative to its target.
    pub offset: Offset,
    /// Pitch.
    pub x_angle: i64,
    /// Yaw.
    pub y_angle: i64,
    /// The point in the world that the camera follows.
    pub target: Vec3,
    pub mode: CameraMode,
    pub perspective: CameraPerspective,
    /// Field of view.
    pub fov_degrees: i64,
}

/// Where the camera wants to be this frame, for the engine to blend toward.
#[derive(Clone, Copy, Debug, PartialEq)]
pub struct CameraPlacement {
    /// The point to stand off from.
    pub anchor: Vec3,
    /// The yaw that turns the frame in which the offset is measured, and the
    /// desired yaw of the camera.
    pub yaw: i64,
    /// The desired pitch of the camera.
    pub pitch: i64,
    /// The displacement from the anchor along the yawed frame's axes.
    pub offset: Offset,
    /// How much of the way to go this frame, in millionths.
    pub blend: u32,
}

/// Where the weapon model wants to be this frame relative to the camera.
#[derive(Clone, Copy, Debug, PartialEq, Eq, Structural)]
pub struct ViewModelPlacement {
    /// The displacement from the camera along the camera's axes.
    pub offset: Offset,
    /// How much of the way to go this frame, in millionths.
    pub blend: u32,
}

impl PrimaryCamera {
    /// A first-person shooting camera that follows `target` and looks
    /// straight ahead from the hip.
    pub fn new(target: Vec3) -> (r: PrimaryCamera)
        ensures
            r == (PrimaryCamera {
                offset: Offset { x: -1000i64, y: 500, z: -6000i64 },
                x_angle: 0,
                y_angle: 0,
                target,
                mode: CameraMode::Shoot,
                perspective: CameraPerspective::FirstPerson,
                fov_degrees: HIP_FOV,
            }),
    {
        PrimaryCamera {
            offset: Offset { x: -1000, y: 500, z: -6000 },
            x_angle: 0,
            y_angle: 0,
            target,
            mode: CameraMode::Shoot,
            perspective: CameraPerspective::FirstPerson,
            fov_degrees: HIP_FOV,
        }
    }

    /// The camera after its pitch was changed by `increase`: the new pitch is
    /// brought within the limits of the perspective.
    pub open spec fn pitched(self, increase: int) -> PrimaryCamera {
        PrimaryCamera {
            x_angle: self.perspective.clamped(self.x_angle + increase) as i64,
            ..self
        }
    }

    /// The camera after a sequence of pitch changes, first to last.
    pub open spec fn pitched_all(self, increases: Seq<int>) -> PrimaryCamera
        decreases increases.len(),
    {
        if increases.len() == 0 {
            self
        } else {
            self.pitched_all(increases.drop_last()).pitched(increases.last())
        }
    }

    /// The camera after a frame of rotation input. The pointer, while it is
    /// used, turns the camera against its deflection on both axes; the stick,
    /// while it is used, pitches with its deflection and yaws against it. The
    /// pitch is brought within the limits after each of the two.
    pub open spec fn rotated(self, pointer: Option<AxisPair>, stick: Option<AxisPair>, delta: nat)
        -> PrimaryCamera {
        let pointer_pitch = match pointer {
            Some(axes) => -turn(POINTER_SENSITIVITY as int, axes.y as int, delta),
            None => 0,
        };
        let pointer_yaw = match pointer {
            Some(axes) => -turn(POINTER_SENSITIVITY as int, axes.x as int, delta),
            None => 0,
        };
        let stick_pitch = match stick {
            Some(axes) => turn(STICK_PITCH_SENSITIVITY as int, axes.y as int, delta),
            None => 0,
        };
        let stick_yaw = match stick {
            Some(axes) => -turn(STICK_YAW_SENSITIVITY as int, axes.x as int, delta),
            None => 0,
        };
        PrimaryCamera {
            x_angle: self.perspective.clamped(
                self.perspective.clamped(self.x_angle + pointer_pitch) + stick_pitch,
            ) as i64,
            y_angle: (self.y_angle + pointer_yaw + stick_yaw) as i64,
            ..self
        }
    }

    /// The yaw after a frame of rotation input, before it is stored.
    pub open spec fn yaw_after(self, pointer: Option<AxisPair>, stick: Option<AxisPair>, delta: nat)
        -> int {
        self.y_angle + (match pointer {
            Some(axes) => -turn(POINTER_SENSITIVITY as int, axes.x as int, delta),
            None => 0,
        }) + (match stick {
            Some(axes) => -turn(STICK_YAW_SENSITIVITY as int, axes.x as int, delta),
            None => 0,
        })
    }

    /// The displacement of the camera from its target: the whole offset in
    /// third person, only its height in first person.
    pub open spec fn follow_offset(self) -> Offset {
        match self.perspective {
            CameraPerspective::ThirdPerson => self.offset,
            CameraPerspective::FirstPerson => Offset { x: 0, y: self.offset.y, z: 0 },
        }
    }

    /// The field of view that the camera nears: narrow while aiming, wide
    /// otherwise.
    pub open spec fn fov_goal(aiming: bool) -> int {
        if aiming {
            SIGHTS_FOV as int
        } else {
            HIP_FOV as int
        }
    }

    /// Changes the pitch by `increase` and brings it within the limits of the
    /// perspective.
    pub fn adjust_x_angle(&mut self, increase: i64)
        ensures
            *final(self) == old(self).pitched(increase as int),
            final(self).perspective.pitch_min() <= final(self).x_angle,
            final(self).x_angle <= final(self).perspective.pitch_max(),
    {
        self.x_angle = self.perspective.clamp_pitch(self.x_angle as i128 + increase as i128);
    }

    /// Changes the yaw by `increase`.
    pub fn adjust_y_angle(&mut self, increase: i64)
        requires
            i64::MIN <= old(self).y_angle + increase <= i64::MAX,
        ensures
            *final(self) == (PrimaryCamera {
                y_angle: (old(self).y_angle + increase) as i64,
                ..*old(self)
            }),
    {
        self.y_angle = self.y_angle + increase;
    }
}

/// Switches between first and third person on the press of the button.
pub fn switch_camera_perspective(camera: &mut PrimaryCamera, just_pressed: bool)
    ensures
        *final(camera) == (PrimaryCamera {
            perspective: if just_pressed {
                old(camera).perspective.toggled()
            } else {
                old(camera).perspective
            },
            ..*old(camera)
        }),
{
    if just_pressed {
        camera.perspective = match camera.perspective {
            CameraPerspective::FirstPerson => CameraPerspective::ThirdPerson,
            CameraPerspective::ThirdPerson => CameraPerspective::FirstPerson,
        };
    }
}

/// Turns the camera by a frame of rotation input: `pointer` and `stick` hold
/// the deflection of each source while it is in use.
pub fn read_rotation_inputs_primary(
    camera: &mut PrimaryCamera,
    pointer: Option<AxisPair>,
    stick: Option<AxisPair>,
    delta: u64,
)
    requires
        i64::MIN <= old(camera).yaw_after(pointer, stick, delta as nat) <= i64::MAX,
    ensures
        *final(camera) == old(camera).rotated(pointer, stick, delta as nat),
        final(camera).perspective.pitch_min() <= final(camera).x_angle,
        final(camera).x_angle <= final(camera).perspective.pitch_max(),
{
    let mut pitch: i64 = camera.x_angle;
    let mut yaw: i128 = camera.y_angle as i128;
    match pointer {
        Some(axes) => {
            let x_rot_change: i128 = turn_by(POINTER_SENSITIVITY, axes.y, delta);
            let y_rot_change: i128 = turn_by(POINTER_SENSITIVITY, axes.x, delta);
            pitch = camera.perspective.clamp_pitch(pitch as i128 - x_rot_change);
            yaw = yaw - y_rot_change;
        },
        None => {
            pitch = camera.perspective.clamp_pitch(pitch as i128);
        },
    }
    match stick {
        Some(axes) => {
            let x_rot_change: i128 = turn_by(STICK_PITCH_SENSITIVITY, axes.y, delta);
            let y_rot_change: i128 = turn_by(STICK_YAW_SENSITIVITY, axes.x, delta);
            pitch = camera.perspective.clamp_pitch(pitch as i128 + x_rot_change);
            yaw = yaw - y_rot_change;
        },
        None => {
            pitch = camera.perspective.clamp_pitch(pitch as i128);
        },
    }
    camera.x_angle = pitch;
    camera.y_angle = yaw as i64;
}

/// Points the camera at where the player stands now.
pub fn target_player(camera: &mut PrimaryCamera, position: Vec3)
    ensures
        *final(camera) == (PrimaryCamera { target: position, ..*old(camera) }),
{
    camera.target = position;
}

/// Where the camera wants to be after a frame of `delta` nanoseconds: at its
/// target, displaced by the offset its perspective calls for in the frame
/// turned by its yaw, looking along its pitch and yaw, and nearing all of
/// that at the follow rate.
pub fn position_and_rotate_camera(camera: &PrimaryCamera, delta: u64) -> (r: CameraPlacement)
    ensures
        r.anchor == camera.target,
        r.yaw == camera.y_angle,
        r.pitch == camera.x_angle,
        r.offset == camera.follow_offset(),
        r.blend == blend_factor(FOLLOW_RATE as nat, delta as nat),
{
    let offset = match camera.perspective {
        CameraPerspective::ThirdPerson => camera.offset,
        CameraPerspective::FirstPerson => Offset { x: 0, y: camera.offset.y, z: 0 },
    };
    CameraPlacement {
        anchor: camera.target,
        yaw: camera.y_angle,
        pitch: camera.x_angle,
        offset,
        blend: blend_factor_of(FOLLOW_RATE, delta),
    }
}

/// Where the weapon model sits relative to the camera. From the hip it hangs
/// low to the right and bobs with `sway`, the thousandths of a sine wave;
/// down the sights it sits still below the line of sight.
pub open spec fn view_model_offset(aim: AimMode, sway: int) -> Offset {
    match aim {
        AimMode::Hip => Offset {
            x: 350,
            y: (-300 + (if sway >= 0 {
                sway * SWAY_REACH / 1000
            } else {
                -((-sway) * SWAY_REACH / 1000)
            })) as i64,
            z: 900,
        },
        AimMode::Sights => Offset { x: 0, y: -200i64, z: 500 },
    }
}

/// Where the weapon model wants to be after a frame of `delta` nanoseconds.
pub fn move_first_person_gun(aim: AimMode, sway: i16, delta: u64) -> (r: ViewModelPlacement)
    ensures
        r.offset == view_model_offset(aim, sway as int),
        r.blend == blend_factor(VIEW_MODEL_RATE as nat, delta as nat),
{
    let offset = match aim {
        AimMode::Hip => {
            let bob: i64 = if sway >= 0 {
                (sway as i64) * SWAY_REACH / 1000
            } else {
                -((-(sway as i64)) * SWAY_REACH / 1000)
            };
            Offset { x: 350, y: -300 + bob, z: 900 }
        },
        AimMode::Sights => Offset { x: 0, y: -200, z: 500 },
    };
    ViewModelPlacement { offset, blend: blend_factor_of(VIEW_MODEL_RATE, delta) }
}

/// Narrows the field of view while the aim button is held and widens it
/// again when it is not, and says how the weapon is held meanwhile. The field
/// of view nears its goal at the aiming rate and never passes it.
pub fn aim_down_sights(camera: &mut PrimaryCamera, aiming: bool, delta: u64) -> (r: AimMode)
    ensures
        r == (if aiming {
            AimMode::Sights
        } else {
            AimMode::Hip
        }),
        *final(camera) == (PrimaryCamera {
            fov_degrees: approached(
                old(camera).fov_degrees as int,
                PrimaryCamera::fov_goal(aiming),
                (FOV_RATE * delta) as nat,
                NANOS_PER_SECOND as nat,
            ) as i64,
            ..*old(camera)
        }),
{
    let goal: i64 = if aiming {
        SIGHTS_FOV
    } else {
        HIP_FOV
    };
    let numer: u64 = if delta >= NANOS_PER_SECOND {
        NANOS_PER_SECOND
    } else {
        FOV_RATE * delta
    };
    proof {
        let distance = if goal >= camera.fov_degrees {
            (goal - camera.fov_degrees) as nat
        } else {
            (camera.fov_degrees - goal) as nat
        };
        assert(FOV_RATE * delta >= NANOS_PER_SECOND || numer == FOV_RATE * delta);
        lemma_blend_step_bounds(distance, numer as nat, NANOS_PER_SECOND as nat);
        lemma_blend_step_bounds(distance, (FOV_RATE * delta) as nat, NANOS_PER_SECOND as nat);
    }
    camera.fov_degrees = approach(camera.fov_degrees, goal, numer, NANOS_PER_SECOND);
    if aiming {
        AimMode::Sights
    } else {
        AimMode::Hip
    }
}

/// What the input layer reports for one frame of the camera.
#[derive(Clone, Copy, Debug, PartialEq, Eq, Structural)]
pub struct CameraInput {
    /// The deflection of the pointer, while it moves the camera.
    pub pointer: Option<AxisPair>,
    /// The deflection of the stick, while it moves the camera.
    pub stick: Option<AxisPair>,
    /// Whether the perspective button was pressed on this frame.
    pub switch_perspective: bool,
    /// Whether the aim button is held.
    pub aim: bool,
    /// The thousandths of the sine wave that the weapon model bobs with.
    pub sway: i16,
}

/// What the engine is to do with the camera and the weapon model this frame.
#[derive(Clone, Copy, Debug, PartialEq)]
pub struct CameraFrame {
    pub placement: CameraPlacement,
    pub view_model: ViewModelPlacement,
}

impl PrimaryCamera {
    /// The camera after a whole frame that follows `subject`: turned by the
    /// rotation input, switched if asked, aimed at the subject, its field of
    /// view nearer its goal.
    pub open spec fn updated(self, input: CameraInput, subject: Vec3, delta: nat) -> PrimaryCamera {
        let turned = self.rotated(input.pointer, input.stick, delta);
        PrimaryCamera {
            perspective: if input.switch_perspective {
                self.perspective.toggled()
            } else {
                self.perspective
            },
            target: subject,
            fov_degrees: approached(
                self.fov_degrees as int,
                PrimaryCamera::fov_goal(input.aim),
                (FOV_RATE * delta) as nat,
                NANOS_PER_SECOND as nat,
            ) as i64,
            ..turned
        }
    }
}

/// Runs one frame of the camera, its steps in their fixed order: read the
/// rotation input and clamp the pitch, switch the perspective, follow the
/// subject, place the camera, place the weapon model as it was held on
/// entering the frame, then bring stance and field of view up to the aim
/// button.
///
/// With no subject to follow the frame is skipped: nothing changes and
/// nothing is placed.
pub fn update_camera(
    camera: &mut PrimaryCamera,
    stance: &mut AimMode,
    input: &CameraInput,
    subject: Option<Vec3>,
    delta: u64,
) -> (r: Option<CameraFrame>)
    requires
        subject is Some ==> i64::MIN <= old(camera).yaw_after(
            input.pointer,
            input.stick,
            delta as nat,
        ) <= i64::MAX,
    ensures
        subject is None ==> r is None,
        subject is None ==> *final(camera) == *old(camera),
        subject is None ==> *final(stance) == *old(stance),
        subject is Some ==> {
            let after = old(camera).updated(*input, subject->0, delta as nat);
            &&& *final(camera) == after
            &&& *final(stance) == (if input.aim {
                AimMode::Sights
            } else {
                AimMode::Hip
            })
            &&& r is Some
            &&& r->0.placement.anchor == subject->0
            &&& r->0.placement.yaw == after.y_angle
            &&& r->0.placement.pitch == after.x_angle
            &&& r->0.placement.offset == after.follow_offset()
            &&& r->0.placement.blend == blend_factor(FOLLOW_RATE as nat, delta as nat)
            &&& r->0.view_model.offset == view_model_offset(*old(stance), input.sway as int)
            &&& r->0.view_model.blend == blend_factor(VIEW_MODEL_RATE as nat, delta as nat)
        },
{
    match subject {
        None => None,
        Some(position) => {
            read_rotation_inputs_primary(camera, input.pointer, input.stick, delta);
            switch_camera_perspective(camera, input.switch_perspective);
            target_player(camera, position);
            let placement = position_and_rotate_camera(camera, delta);
            let view_model = move_first_person_gun(*stance, input.sway, delta);
            *stance = aim_down_sights(camera, input.aim, delta);
            Some(CameraFrame { placement, view_model })
        },
    }
}

/// However the pitch is changed, and however often, it stays within the
/// limits of the perspective from the first change on: between -87 and 87
/// degrees in first person, between -2 and 20 in third.
pub proof fn law_pitch_stays_clamped(camera: PrimaryCamera, increases: Seq<int>)
    requires
        increases.len() > 0,
    ensures
        camera.pitched_all(increases).perspective == camera.perspective,
        camera.perspective.pitch_min() <= camera.pitched_all(increases).x_angle
            <= camera.perspective.pitch_max(),
        camera.perspective == CameraPerspective::FirstPerson ==> -87_000
            <= camera.pitched_all(increases).x_angle <= 87_000,
        camera.perspective == CameraPerspective::ThirdPerson ==> -2_000 <= camera.pitched_all(
            increases,
        ).x_angle <= 20_000,
    decreases increases.len(),
{
    lemma_pitched_all_keeps_perspective(camera, increases.drop_last());
}

/// Changing the pitch leaves the perspective alone.
proof fn lemma_pitched_all_keeps_perspective(camera: PrimaryCamera, increases: Seq<int>)
    ensures
        camera.pitched_all(increases).perspective == camera.perspective,
    decreases increases.len(),
{
    if increases.len() > 0 {
        lemma_pitched_all_keeps_perspective(camera, increases.drop_last());
    }
}

} // verus!
