//! From the shoot button to what the shots do in the world.
//!
//! The library decides; the engine casts the rays and carries out the
//! effects. A frame runs in this order: [`send_shot_events`] answers the
//! button, [`shot_queries`] lists the rays of the volley, the engine casts
//! them, and [`read_shot_events`] turns what they hit into effects.

use bevy::ecs::entity::Entity;
use bevy::math::Vec3;
use vstd::prelude::*;
use crate::focus::CameraFocus;
use crate::inventory::Belt;
use crate::money::Wallet;
use crate::random::{gen_range, thread_rng};
use crate::weapon::{FireOutcome, FireResult, RaycastShot, ShotEvent, TriggerMode, Volley};

verus! {

/// The strength of the push that a shot gives a body, in thousandths of a
/// unit along the shot's direction.
pub const IMPULSE_STRENGTH: i64 = 10_000;

/// A sound that the audio layer plays with a speed and a volume drawn from
/// the cue's ranges.
#[derive(Clone, Copy, Debug, PartialEq, Eq, Structural)]
pub enum SoundCue {
    /// A shot left the barrel.
    BulletShot,
    /// The trigger clicked on an empty clip.
    EmptyFire,
}

/// The ranges, in thousandths, from which a cue's playback speed and volume
/// are drawn: from each lower bound up to, but not including, the upper.
#[derive(Clone, Copy, Debug, PartialEq, Eq, Structural)]
pub struct CueRanges {
    pub speed_min: u32,
    pub speed_max: u32,
    pub volume_min: u32,
    pub volume_max: u32,
}

impl SoundCue {
    /// The ranges of this cue.
    pub open spec fn ranges_spec(self) -> CueRanges {
        match self {
            SoundCue::BulletShot => CueRanges {
                speed_min: 1000,
                speed_max: 3500,
                volume_min: 800,
                volume_max: 1100,
            },
            SoundCue::EmptyFire => CueRanges {
                speed_min: 1000,
                speed_max: 1500,
                volume_min: 800,
                volume_max: 1100,
            },
        }
    }

    /// The ranges of this cue.
    pub fn ranges(self) -> (r: CueRanges)
        ensures
            r == self.ranges_spec(),
    {
        match self {
            SoundCue::BulletShot => CueRanges {
                speed_min: 1000,
                speed_max: 3500,
                volume_min: 800,
                volume_max: 1100,
            },
            SoundCue::EmptyFire => CueRanges {
                speed_min: 1000,
                speed_max: 1500,
                volume_min: 800,
                volume_max: 1100,
            },
        }
    }
}

/// How to play a cue once: its speed and volume in thousandths.
#[derive(Clone, Copy, Debug, PartialEq, Eq, Structural)]
pub struct CuePlayback {
    pub cue: SoundCue,
    pub speed: u32,
    pub volume: u32,
}

impl CueRanges {
    /// The speed and the volume lie in their ranges.
    pub open spec fn hold(self, speed: u32, volume: u32) -> bool {
        self.speed_min <= speed < self.speed_max && self.volume_min <= volume < self.volume_max
    }
}

impl SoundCue {
    /// Draws a speed and a volume for one playing of the cue, each from its
    /// range, so that no two shots sound quite alike.
    pub fn playback(self) -> (r: CuePlayback)
        ensures
            r.cue == self,
            self.ranges_spec().hold(r.speed, r.volume),
    {
        let ranges = self.ranges();
        let mut rng = thread_rng();
        let speed: i64 = gen_range(&mut rng, ranges.speed_min as i64, ranges.speed_max as i64);
        let volume: i64 = gen_range(&mut rng, ranges.volume_min as i64, ranges.volume_max as i64);
        CuePlayback { cue: self, speed: speed as u32, volume: volume as u32 }
    }
}

/// Whether the state of the shoot button pulls a trigger of `mode`: an
/// automatic one while the button is held, a semi-automatic one on the frame
/// it is pressed.
pub open spec fn pulls_trigger(mode: TriggerMode, pressed: bool, just_pressed: bool) -> bool {
    match mode {
        TriggerMode::Auto => pressed,
        TriggerMode::SemiAuto => just_pressed,
    }
}

/// What the frame's fire attempt asks of the rest of the game.
#[derive(Clone, Debug, PartialEq)]
pub struct ShotDispatch {
    /// The volley to resolve, where the gun fired.
    pub event: Option<ShotEvent>,
    /// Whether to play the dry-fire cue.
    pub dry_fire: bool,
}

/// A dispatch with its volley as sequences.
pub struct ShotDispatchModel {
    pub event: Option<Volley>,
    pub dry_fire: bool,
}

impl View for ShotDispatch {
    type V = ShotDispatchModel;

    open spec fn view(&self) -> ShotDispatchModel {
        ShotDispatchModel {
            event: match self.event {
                Some(event) => Some(event@),
                None => None,
            },
            dry_fire: self.dry_fire,
        }
    }
}

/// What follows from the outcome of a fire attempt: a volley is passed on,
/// and an empty clip clicks unless a click is still sounding.
pub open spec fn dispatch_of(outcome: FireOutcome, dry_fire_sounding: bool) -> ShotDispatchModel {
    match outcome {
        FireOutcome::Shot(volley) => ShotDispatchModel { event: Some(volley), dry_fire: false },
        FireOutcome::EmptyClip => ShotDispatchModel { event: None, dry_fire: !dry_fire_sounding },
        FireOutcome::NoAction => ShotDispatchModel { event: None, dry_fire: false },
    }
}

/// Lets a frame of `delta` nanoseconds pass for the gun on the belt.
pub fn gun_upkeep(belt: &mut Belt, delta: u64)
    ensures
        final(belt).gun@ == old(belt).gun@.ticked(delta as nat),
{
    belt.gun.tick(delta);
}

/// Answers the shoot button for one frame.
///
/// The gun's trigger is pulled where the button's state calls for it under
/// the gun's trigger mode, with `sampled` as the directions drawn for the
/// volley. The result holds the volley where the gun fired, and asks for the
/// dry-fire cue where the clip was empty and no such cue is still sounding.
pub fn send_shot_events(
    belt: &mut Belt,
    pressed: bool,
    just_pressed: bool,
    dry_fire_sounding: bool,
    focus: &CameraFocus,
    sampled: &Vec<Vec3>,
) -> (r: ShotDispatch)
    ensures
        ({
            let gun = old(belt).gun@;
            if pulls_trigger(gun.trigger.trigger_mode, pressed, just_pressed) {
                &&& r@ == dispatch_of(gun.fire_outcome(*focus, sampled@), dry_fire_sounding)
                &&& final(belt).gun@ == gun.fired()
            } else {
                &&& r@ == dispatch_of(FireOutcome::NoAction, dry_fire_sounding)
                &&& final(belt).gun@ == gun
            }
        }),
{
    let shot_to_fire = match belt.get_trigger_mode() {
        TriggerMode::Auto => {
            if pressed {
                belt.fire(focus, sampled)
            } else {
                FireResult::NoAction
            }
        },
        TriggerMode::SemiAuto => {
            if just_pressed {
                belt.fire(focus, sampled)
            } else {
                FireResult::NoAction
            }
        },
    };
    match shot_to_fire {
        FireResult::Shot(shot) => ShotDispatch { event: Some(shot), dry_fire: false },
        FireResult::EmptyClip => ShotDispatch { event: None, dry_fire: !dry_fire_sounding },
        FireResult::NoAction => ShotDispatch { event: None, dry_fire: false },
    }
}

/// Starts a reload on the press of the reload button, unless one is under
/// way already. See [`crate::weapon::Gun::reload`] for what a reload does.
pub fn reload_gun(belt: &mut Belt, wallet: &mut Wallet, just_pressed: bool)
    requires
        old(wallet)@ - old(belt).gun@.clip.reload_cost() >= i64::MIN,
    ensures
        ({
            let gun = old(belt).gun@;
            if just_pressed && !gun.reloading {
                &&& final(belt).gun@ == gun.reloaded()
                &&& final(wallet)@ == old(wallet)@ - gun.clip.reload_cost()
            } else {
                &&& final(belt).gun@ == gun
                &&& final(wallet)@ == old(wallet)@
            }
        }),
{
    if !belt.gun.is_reloading() && just_pressed {
        belt.gun.reload(wallet);
    }
}

/// A ray for the physics world to cast.
#[derive(Clone, Copy, Debug, PartialEq)]
pub struct RayQuery {
    pub origin: Vec3,
    pub dir: Vec3,
    /// How far the ray reaches, in thousandths of a unit.
    pub max_distance: i64,
    /// Whether the ray stops inside a shape that it starts in.
    pub solid: bool,
    /// The body and collider that the ray passes through: the one who asks.
    pub exclude: Entity,
}

/// What is known of a body that shots can push.
#[derive(Clone, Copy, Debug, PartialEq)]
pub struct ShootableBody {
    /// The body's origin, taken for its centre of mass.
    pub center: Vec3,
    /// Whether an impulse is already waiting on the body this frame.
    pub has_impulse: bool,
}

/// What a ray struck.
#[derive(Clone, Copy, Debug, PartialEq)]
pub struct RayHit {
    pub entity: Entity,
    /// Where the ray met the surface.
    pub point: Vec3,
    /// The body's record, where the struck entity is one that shots can push.
    pub shootable: Option<ShootableBody>,
}

/// One thing for the engine to do in answer to a volley.
#[derive(Clone, Copy, Debug, PartialEq)]
pub enum ShotEffect {
    /// Play a sound.
    Sound(SoundCue),
    /// Leave a bullet hole at a point.
    BulletHole { at: Vec3 },
    /// Push a body: an impulse of `strength` along `dir`, applied at `at` on
    /// a body centred at `center`. With `replace`, the impulse that waits on
    /// the body is dropped for this one.
    Impulse { entity: Entity, dir: Vec3, strength: i64, at: Vec3, center: Vec3, replace: bool },
}

/// The ray of one shot, cast by `shooter`: from the shot's origin along its
/// direction as far as its range, through sensors, past the shooter.
pub open spec fn query_of(shot: RaycastShot, shooter: Entity) -> RayQuery {
    RayQuery {
        origin: shot.origin,
        dir: shot.dir,
        max_distance: shot.range,
        solid: false,
        exclude: shooter,
    }
}

/// The rays of a volley: one for each instant shot, in order, and none for
/// projectiles.
pub open spec fn queries_of(volley: Volley, shooter: Entity) -> Seq<RayQuery> {
    match volley {
        Volley::Raycast(shots) => Seq::new(shots.len(), |i: int| query_of(shots[i], shooter)),
        Volley::Projectile(_) => Seq::empty(),
    }
}

/// What the `index`-th ray struck: nothing where no result was handed in.
pub open spec fn hit_at(hits: Seq<Option<RayHit>>, index: int) -> Option<RayHit> {
    if 0 <= index < hits.len() {
        hits[index]
    } else {
        None
    }
}

/// What one shot does. A miss does nothing. A hit leaves a bullet hole at the
/// point struck, and a body that shots can push gets an impulse there along
/// the shot's direction, in place of one that waits on it already.
pub open spec fn hit_effects(shot: RaycastShot, hit: Option<RayHit>) -> Seq<ShotEffect> {
    match hit {
        None => Seq::empty(),
        Some(hit) => match hit.shootable {
            None => seq![ShotEffect::BulletHole { at: hit.point }],
            Some(body) => seq![
                ShotEffect::BulletHole { at: hit.point },
                ShotEffect::Impulse {
                    entity: hit.entity,
                    dir: shot.dir,
                    strength: IMPULSE_STRENGTH,
                    at: hit.point,
                    center: body.center,
                    replace: body.has_impulse,
                },
            ],
        },
    }
}

/// What the first `count` shots do, in order.
pub open spec fn shots_effects(shots: Seq<RaycastShot>, hits: Seq<Option<RayHit>>, count: nat)
    -> Seq<ShotEffect>
    decreases count,
{
    if count == 0 {
        Seq::empty()
    } else {
        shots_effects(shots, hits, (count - 1) as nat) + hit_effects(
            shots[count - 1],
            hit_at(hits, count - 1),
        )
    }
}

/// What a volley does: the sound of the shot, then the effects of each
/// instant shot in order. Projectiles are accepted and do nothing more.
pub open spec fn volley_effects(volley: Volley, hits: Seq<Option<RayHit>>) -> Seq<ShotEffect> {
    seq![ShotEffect::Sound(SoundCue::BulletShot)] + (match volley {
        Volley::Raycast(shots) => shots_effects(shots, hits, shots.len()),
        Volley::Projectile(_) => Seq::empty(),
    })
}

/// The rays to cast for a volley fired by `shooter`.
pub fn shot_queries(event: &ShotEvent, shooter: Entity) -> (r: Vec<RayQuery>)
    ensures
        r@ == queries_of(event@, shooter),
{
    let mut queries: Vec<RayQuery> = Vec::new();
    match event {
        ShotEvent::Raycast(shots) => {
            let mut i: usize = 0;
            while i < shots.len()
                invariant
                    i <= shots@.len(),
                    queries@ =~= Seq::new(i as nat, |k: int| query_of(shots@[k], shooter)),
                decreases shots@.len() - i,
            {
                let shot = &shots[i];
                queries.push(
                    RayQuery {
                        origin: shot.origin,
                        dir: shot.dir,
                        max_distance: shot.range,
                        solid: false,
                        exclude: shooter,
                    },
                );
                i += 1;
            }
        },
        ShotEvent::Projectile(_) => {},
    }
    queries
}

/// Turns a volley and what its rays struck into effects.
///
/// `hits` holds, for each shot in order, what the ray of [`shot_queries`]
/// struck; a shot without an entry has missed.
pub fn read_shot_events(event: &ShotEvent, hits: &Vec<Option<RayHit>>) -> (r: Vec<ShotEffect>)
    ensures
        r@ == volley_effects(event@, hits@),
{
    let mut effects: Vec<ShotEffect> = Vec::new();
    effects.push(ShotEffect::Sound(SoundCue::BulletShot));
    match event {
        ShotEvent::Raycast(shots) => {
            let mut i: usize = 0;
            while i < shots.len()
                invariant
                    i <= shots@.len(),
                    effects@ =~= seq![ShotEffect::Sound(SoundCue::BulletShot)] + shots_effects(
                        shots@,
                        hits@,
                        i as nat,
                    ),
                decreases shots@.len() - i,
            {
                let shot = &shots[i];
                if i < hits.len() {
                    match hits[i] {
                        Some(hit) => {
                            effects.push(ShotEffect::BulletHole { at: hit.point });
                            match hit.shootable {
                                Some(body) => {
                                    effects.push(
                                        ShotEffect::Impulse {
                                            entity: hit.entity,
                                            dir: shot.dir,
                                            strength: IMPULSE_STRENGTH,
                                            at: hit.point,
                                            center: body.center,
                                            replace: body.has_impulse,
                                        },
                                    );
                                },
                                None => {},
                            }
                        },
                        None => {},
                    }
                }
                i += 1;
            }
        },
        ShotEvent::Projectile(_) => {},
    }
    effects
}

/// A volley whose rays all miss does nothing but sound: no bullet hole, no
/// impulse.
pub proof fn law_misses_leave_no_trace(shots: Seq<RaycastShot>, hits: Seq<Option<RayHit>>)
    requires
        forall|i: int| 0 <= i < shots.len() ==> hit_at(hits, i) is None,
    ensures
        volley_effects(Volley::Raycast(shots), hits) == seq![
            ShotEffect::Sound(SoundCue::BulletShot),
        ],
{
    lemma_misses(shots, hits, shots.len());
    assert(seq![ShotEffect::Sound(SoundCue::BulletShot)] + Seq::<ShotEffect>::empty() =~= seq![
        ShotEffect::Sound(SoundCue::BulletShot),
    ]);
}

/// Shots that all miss have no effects.
proof fn lemma_misses(shots: Seq<RaycastShot>, hits: Seq<Option<RayHit>>, count: nat)
    requires
        count <= shots.len(),
        forall|i: int| 0 <= i < shots.len() ==> hit_at(hits, i) is None,
    ensures
        shots_effects(shots, hits, count) == Seq::<ShotEffect>::empty(),
    decreases count,
{
    if count > 0 {
        lemma_misses(shots, hits, (count - 1) as nat);
        assert(hit_at(hits, count - 1) is None);
        assert(Seq::<ShotEffect>::empty() + Seq::<ShotEffect>::empty() =~= Seq::<
            ShotEffect,
        >::empty());
    }
}

} // verus!
