//! The weapon: trigger, clip, muzzle and receiver, and the gun that joins them.
//!
//! Spread angles are in thousandths of a degree, ranges, speeds and forces in
//! thousandths of a world unit, times in nanoseconds. A bloom of 1000 stands
//! for a blend factor of one.

use bevy::math::Vec3;
use vstd::prelude::*;
use crate::fixed::{blend, blend_step};
use crate::focus::{CameraFocus, Jitter};
use crate::money::{lemma_rounded_share_bounded, rounded_share, Money, Wallet};
use crate::timer::{Countdown, CountdownModel, TimerMode};

verus! {

/// The bloom that moves the spread all the way to its limit in one shot.
pub const FULL_BLOOM: u64 = 1000;

/// Cooling blends with a quarter of the bloom: the bloom over this scale.
pub const COOLING_SCALE: u64 = 4000;

/// The speed of every projectile, in thousandths of a unit per second.
pub const PROJECTILE_SPEED: i64 = 30_000;

/// The cooldown between shots of an automatic trigger, in nanoseconds.
pub const AUTO_COOLDOWN: u64 = 100_000_000;

/// The cooldown between shots of a semi-automatic trigger, in nanoseconds.
pub const SEMI_AUTO_COOLDOWN: u64 = 300_000_000;

/// How the trigger answers a held button. The gun does not read this itself:
/// the input layer asks for it to decide when to call `fire`.
#[derive(Clone, Copy, Debug, PartialEq, Eq, Structural)]
pub enum TriggerMode {
    /// Fires on every frame the button is held.
    Auto,
    /// Fires once for each press.
    SemiAuto,
}

/// What leaves the barrel.
#[derive(Clone, Copy, Debug, PartialEq, Eq, Structural)]
pub enum FireType {
    /// One instant ray.
    Hitscan,
    /// A cone of instant rays, as many as given.
    HitscanSpread(u8),
    /// One travelling projectile.
    Projectile,
    /// A cone of travelling projectiles, as many as given.
    ProjectileSpread(u8),
}

/// How many shots a spread of `n` releases.
#[derive(Clone, Copy, Debug, PartialEq, Eq, Structural)]
pub enum SpreadCount {
    /// All `n` of them.
    Exact,
    /// One fewer than `n`, and none for a spread of zero.
    OneShort,
}

impl FireType {
    /// Whether the shots are instant rays rather than projectiles.
    pub open spec fn is_hitscan(self) -> bool {
        self is Hitscan || self is HitscanSpread
    }

    /// The number of shots in one volley of this type under `rule`.
    pub open spec fn shots(self, rule: SpreadCount) -> nat {
        match self {
            FireType::Hitscan | FireType::Projectile => 1,
            FireType::HitscanSpread(n) | FireType::ProjectileSpread(n) => if rule
                == SpreadCount::Exact {
                n as nat
            } else if n > 0 {
                (n - 1) as nat
            } else {
                0
            },
        }
    }

    /// The number of shots in one volley of this type under `rule`.
    pub fn shot_count(self, rule: SpreadCount) -> (r: u8)
        ensures
            r == self.shots(rule),
    {
        match self {
            FireType::Hitscan | FireType::Projectile => 1,
            FireType::HitscanSpread(n) | FireType::ProjectileSpread(n) => {
                if rule == SpreadCount::Exact {
                    n
                } else if n > 0 {
                    n - 1
                } else {
                    0
                }
            },
        }
    }
}

/// The muzzle as plain numbers.
pub struct MuzzleModel {
    pub min_spread: nat,
    pub max_spread: nat,
    pub current_spread: nat,
    pub bloom: nat,
    pub max_range: i64,
}

impl MuzzleModel {
    /// The spread lies between its limits.
    pub open spec fn valid(self) -> bool {
        self.min_spread <= self.current_spread <= self.max_spread
    }

    /// The muzzle after a shot: the spread has moved toward its upper limit
    /// by the bloom's share of what was left.
    pub open spec fn bloomed(self) -> MuzzleModel {
        MuzzleModel {
            current_spread: self.current_spread + blend_step(
                (self.max_spread - self.current_spread) as nat,
                self.bloom,
                FULL_BLOOM as nat,
            ),
            ..self
        }
    }

    /// The muzzle after a frame of rest: the spread has moved toward its lower
    /// limit by a quarter of the bloom's share of what was left.
    pub open spec fn cooled(self) -> MuzzleModel {
        MuzzleModel {
            current_spread: (self.current_spread - blend_step(
                (self.current_spread - self.min_spread) as nat,
                self.bloom,
                COOLING_SCALE as nat,
            )) as nat,
            ..self
        }
    }
}

/// The spread of the weapon: it grows with each shot and shrinks with each
/// frame, always between its two limits.
#[derive(Clone, Copy, Debug)]
pub struct Muzzle {
    min_spread: u32,
    max_spread: u32,
    current_spread: u32,
    bloom: u32,
    max_range: i64,
}

impl View for Muzzle {
    type V = MuzzleModel;

    closed spec fn view(&self) -> MuzzleModel {
        MuzzleModel {
            min_spread: self.min_spread as nat,
            max_spread: self.max_spread as nat,
            current_spread: self.current_spread as nat,
            bloom: self.bloom as nat,
            max_range: self.max_range,
        }
    }
}

impl Muzzle {
    #[verifier::type_invariant]
    spec fn well_formed(self) -> bool {
        self.min_spread <= self.current_spread <= self.max_spread
    }

    /// A muzzle at rest, its spread at the lower limit. There is none with
    /// the lower limit above the upper.
    pub fn new(min_spread: u32, max_spread: u32, bloom: u32, max_range: i64) -> (r: Option<Muzzle>)
        ensures
            r is Some <==> min_spread <= max_spread,
            r is Some ==> r->0@ == (MuzzleModel {
                min_spread: min_spread as nat,
                max_spread: max_spread as nat,
                current_spread: min_spread as nat,
                bloom: bloom as nat,
                max_range,
            }),
    {
        if min_spread <= max_spread {
            Some(Muzzle { min_spread, max_spread, current_spread: min_spread, bloom, max_range })
        } else {
            None
        }
    }

    /// The current spread.
    pub fn get_spread(&self) -> (r: u32)
        ensures
            r == self@.current_spread,
            self@.valid(),
    {
        proof {
            use_type_invariant(self);
        }
        self.current_spread
    }

    /// How far a shot reaches.
    pub fn get_range(&self) -> (r: i64)
        ensures
            r == self@.max_range,
    {
        self.max_range
    }

    /// Widens the spread after a shot.
    pub fn increase_spread(&mut self)
        ensures
            final(self)@ == old(self)@.bloomed(),
            final(self)@.valid(),
        no_unwind
    {
        proof {
            use_type_invariant(&*self);
        }
        let step: u32 = blend(
            (self.max_spread - self.current_spread) as u64,
            self.bloom as u64,
            FULL_BLOOM,
        ) as u32;
        self.current_spread = self.current_spread + step;
    }

    /// Narrows the spread over a frame.
    pub fn reduce_spread(&mut self)
        ensures
            final(self)@ == old(self)@.cooled(),
            final(self)@.valid(),
        no_unwind
    {
        proof {
            use_type_invariant(&*self);
        }
        let step: u32 = blend(
            (self.current_spread - self.min_spread) as u64,
            self.bloom as u64,
            COOLING_SCALE,
        ) as u32;
        self.current_spread = self.current_spread - step;
    }
}

/// What a reload has to pay: the missing share of the clip's cost, to the
/// nearest cent.
pub open spec fn reload_cost(current: nat, max: nat, clip_cost: int) -> int {
    if current >= max {
        0
    } else {
        rounded_share(clip_cost, (max - current) as nat, max)
    }
}

/// The clip as plain numbers.
pub struct ClipModel {
    pub max: nat,
    pub current: nat,
    pub reload_time: nat,
    pub clip_cost: int,
}

impl ClipModel {
    /// The clip holds no more than its capacity and costs nothing negative.
    pub open spec fn valid(self) -> bool {
        self.current <= self.max && self.clip_cost >= 0
    }

    /// The clip after an attempt to take one round: one fewer, unless empty.
    pub open spec fn spent(self) -> ClipModel {
        if self.current > 0 {
            ClipModel { current: (self.current - 1) as nat, ..self }
        } else {
            self
        }
    }

    /// The clip filled up.
    pub open spec fn refilled(self) -> ClipModel {
        ClipModel { current: self.max, ..self }
    }

    /// The rounds that a reload would add.
    pub open spec fn missing(self) -> nat {
        (self.max - self.current) as nat
    }

    /// What a reload of this clip costs, in cents.
    pub open spec fn reload_cost(self) -> int {
        reload_cost(self.current, self.max, self.clip_cost)
    }
}

/// A snapshot of how full the clip is.
#[derive(Clone, Copy, Debug, PartialEq, Eq, Structural)]
pub struct ClipStats {
    pub max: u8,
    pub current: u8,
}

/// The ammunition in the weapon, and what a refill takes in time and money.
#[derive(Clone, Copy, Debug)]
pub struct Clip {
    max: u8,
    current: u8,
    reload_time: u64,
    clip_cost: Money,
}

impl View for Clip {
    type V = ClipModel;

    closed spec fn view(&self) -> ClipModel {
        ClipModel {
            max: self.max as nat,
            current: self.current as nat,
            reload_time: self.reload_time as nat,
            clip_cost: self.clip_cost@,
        }
    }
}

impl Default for Clip {
    /// A full clip of thirty rounds that reloads in a second and costs 10.00.
    fn default() -> (r: Clip)
        ensures
            r@ == (ClipModel { max: 30, current: 30, reload_time: 1_000_000_000, clip_cost: 1000 }),
    {
        Clip { max: 30, current: 30, reload_time: 1_000_000_000, clip_cost: Money { cents: 1000 } }
    }
}

impl Clip {
    #[verifier::type_invariant]
    spec fn well_formed(self) -> bool {
        self.current <= self.max && self.clip_cost.cents >= 0
    }

    /// A clip of `max` rounds that holds `current` of them. There is none
    /// that holds more than its capacity, nor one with a negative cost.
    pub fn new(max: u8, current: u8, reload_time: u64, clip_cost: Money) -> (r: Option<Clip>)
        ensures
            r is Some <==> current <= max && clip_cost@ >= 0,
            r is Some ==> r->0@ == (ClipModel {
                max: max as nat,
                current: current as nat,
                reload_time: reload_time as nat,
                clip_cost: clip_cost@,
            }),
    {
        if current <= max && clip_cost.cents >= 0 {
            Some(Clip { max, current, reload_time, clip_cost })
        } else {
            None
        }
    }

    /// How full the clip is.
    pub fn get_clip_stats(&self) -> (r: ClipStats)
        ensures
            r.max == self@.max,
            r.current == self@.current,
            self@.valid(),
    {
        proof {
            use_type_invariant(self);
        }
        ClipStats { max: self.max, current: self.current }
    }

    /// The nanoseconds a reload takes.
    pub fn get_reload_time(&self) -> (r: u64)
        ensures
            r == self@.reload_time,
    {
        self.reload_time
    }

    /// Takes one round if there is one, and says whether there was.
    pub fn spend_ammo(&mut self) -> (r: bool)
        ensures
            r == (old(self)@.current > 0),
            final(self)@ == old(self)@.spent(),
        no_unwind
    {
        proof {
            use_type_invariant(&*self);
        }
        if self.current > 0 {
            self.current -= 1;
            true
        } else {
            false
        }
    }

    /// What filling the clip up would cost.
    pub fn reload_cost(&self) -> (r: Money)
        ensures
            r@ == self@.reload_cost(),
            0 <= r@ <= self@.clip_cost,
    {
        proof {
            use_type_invariant(self);
        }
        if self.current >= self.max {
            Money { cents: 0 }
        } else {
            let missing: u8 = self.max - self.current;
            proof {
                lemma_rounded_share_bounded(self.clip_cost@, missing as nat, self.max as nat);
            }
            self.clip_cost.scale(missing as u32, self.max as u32)
        }
    }

    /// Fills the clip up and returns the number of rounds that were missing.
    pub fn reload(&mut self) -> (r: u8)
        ensures
            r == old(self)@.missing(),
            final(self)@ == old(self)@.refilled(),
        no_unwind
    {
        proof {
            use_type_invariant(&*self);
        }
        let missing: u8 = self.max - self.current;
        self.current = self.max;
        missing
    }
}

/// The trigger as plain values.
pub struct TriggerModel {
    pub trigger_mode: TriggerMode,
    pub shot_timer: CountdownModel,
    pub pullable: bool,
}

impl TriggerModel {
    /// The cooldown counts in rounds: it wraps rather than stops.
    pub open spec fn valid(self) -> bool {
        self.shot_timer.valid() && self.shot_timer.mode == TimerMode::Repeating
    }

    /// A trigger of `mode` that is ready, with `cooldown` nanoseconds between
    /// shots.
    pub open spec fn ready(mode: TriggerMode, cooldown: nat) -> TriggerModel {
        TriggerModel {
            trigger_mode: mode,
            shot_timer: CountdownModel::fresh(cooldown, TimerMode::Repeating),
            pullable: true,
        }
    }

    /// The trigger after `delta` nanoseconds. A ready trigger stays as it is.
    /// A cooling one counts the time, and is ready again, its cooldown
    /// rewound, once the cooldown has run out.
    pub open spec fn ticked(self, delta: nat) -> TriggerModel {
        if self.pullable {
            self
        } else {
            let timer = self.shot_timer.ticked(delta);
            if timer.finished {
                TriggerModel { pullable: true, shot_timer: timer.rewound(), ..self }
            } else {
                TriggerModel { shot_timer: timer, ..self }
            }
        }
    }

    /// The trigger after a shot: cooling, with the whole cooldown ahead.
    pub open spec fn fired(self) -> TriggerModel {
        TriggerModel { pullable: false, shot_timer: self.shot_timer.rewound(), ..self }
    }
}

/// Fire control: ready to be pulled, or cooling down after a shot.
#[derive(Clone, Copy, Debug)]
pub struct Trigger {
    trigger_mode: TriggerMode,
    shot_timer: Countdown,
    pullable: bool,
}

impl View for Trigger {
    type V = TriggerModel;

    closed spec fn view(&self) -> TriggerModel {
        TriggerModel {
            trigger_mode: self.trigger_mode,
            shot_timer: self.shot_timer@,
            pullable: self.pullable,
        }
    }
}

impl Trigger {
    #[verifier::type_invariant]
    spec fn well_formed(self) -> bool {
        self@.valid()
    }

    /// A ready trigger of `mode` with `cooldown` nanoseconds between shots.
    pub fn new(mode: TriggerMode, cooldown: u64) -> (r: Trigger)
        ensures
            r@ == TriggerModel::ready(mode, cooldown as nat),
    {
        Trigger {
            trigger_mode: mode,
            shot_timer: Countdown::new(cooldown, TimerMode::Repeating),
            pullable: true,
        }
    }

    /// A ready automatic trigger that fires every tenth of a second.
    pub fn auto() -> (r: Trigger)
        ensures
            r@ == TriggerModel::ready(TriggerMode::Auto, AUTO_COOLDOWN as nat),
    {
        Trigger::new(TriggerMode::Auto, AUTO_COOLDOWN)
    }

    /// A ready semi-automatic trigger that fires every three tenths of a
    /// second at most.
    pub fn semi_auto() -> (r: Trigger)
        ensures
            r@ == TriggerModel::ready(TriggerMode::SemiAuto, SEMI_AUTO_COOLDOWN as nat),
    {
        Trigger::new(TriggerMode::SemiAuto, SEMI_AUTO_COOLDOWN)
    }

    /// Whether the trigger is ready.
    pub fn can_fire(&self) -> (r: bool)
        ensures
            r == self@.pullable,
            self@.valid(),
    {
        proof {
            use_type_invariant(self);
        }
        self.pullable
    }

    /// Lets `delta` nanoseconds of cooldown pass.
    pub fn tick(&mut self, delta: u64)
        ensures
            final(self)@ == old(self)@.ticked(delta as nat),
        no_unwind
    {
        proof {
            use_type_invariant(&*self);
        }
        if !self.pullable {
            self.shot_timer.tick(delta);
            if self.shot_timer.finished() {
                self.pullable = true;
                self.shot_timer.reset();
            }
        }
    }

    /// How the trigger answers a held button.
    pub fn get_trigger_mode(&self) -> (r: TriggerMode)
        ensures
            r == self@.trigger_mode,
    {
        self.trigger_mode
    }

    /// Marks a shot: the trigger starts to cool down.
    pub fn fire(&mut self)
        ensures
            final(self)@ == old(self)@.fired(),
        no_unwind
    {
        proof {
            use_type_invariant(&*self);
        }
        self.pullable = false;
        self.shot_timer.reset();
    }
}

/// The fixed profile of a weapon.
#[derive(Clone, Copy, Debug, PartialEq, Eq, Structural)]
pub struct Receiver {
    pub fire_type: FireType,
    pub base_damage: u16,
    pub force_transfer: i64,
    pub kick: i64,
    pub spread_count: SpreadCount,
}

impl Receiver {
    /// The force a shot hands to what it hits.
    pub fn get_force(&self) -> (r: i64)
        ensures
            r == self.force_transfer,
    {
        self.force_transfer
    }
}

/// One instant ray of a volley.
#[derive(Clone, Copy, Debug, PartialEq)]
pub struct RaycastShot {
    pub base_damage: u16,
    pub origin: Vec3,
    pub dir: Vec3,
    pub range: i64,
    pub force: i64,
}

/// One travelling projectile of a volley.
#[derive(Clone, Copy, Debug, PartialEq)]
pub struct ProjectileShot {
    pub base_damage: u16,
    pub origin: Vec3,
    pub dir: Vec3,
    pub speed: i64,
    pub force: i64,
}

/// A weapon profile by kind of shot.
#[derive(Clone, Copy, Debug)]
pub enum Shot {
    SingleHitscan { base_damage: u16, range: i64, force_applied: i64 },
    MultiHitscan { base_damage: u16, range: i64, force_applied: i64, count: u8, spread: u32 },
    SingleProjectile { base_damage: u16, range: i64, force_applied: i64 },
    MultiProjectile { base_damage: u16, range: i64, force_applied: i64, count: u8, spread: u32 },
}

/// The shots of one pull of the trigger, to be resolved once and dropped.
#[derive(Clone, Debug, PartialEq)]
pub enum ShotEvent {
    Raycast(Vec<RaycastShot>),
    Projectile(Vec<ProjectileShot>),
}

/// The shots of one volley as sequences.
pub enum Volley {
    Raycast(Seq<RaycastShot>),
    Projectile(Seq<ProjectileShot>),
}

impl View for ShotEvent {
    type V = Volley;

    open spec fn view(&self) -> Volley {
        match self {
            ShotEvent::Raycast(shots) => Volley::Raycast(shots@),
            ShotEvent::Projectile(shots) => Volley::Projectile(shots@),
        }
    }
}

/// What came of one attempt to fire.
#[derive(Clone, Debug, PartialEq)]
pub enum FireResult {
    /// The gun fired these shots.
    Shot(ShotEvent),
    /// The trigger was pulled on an empty clip.
    EmptyClip,
    /// The trigger was cooling or the gun reloading: nothing happened.
    NoAction,
}

/// What came of one attempt to fire, with the shots as sequences.
pub enum FireOutcome {
    Shot(Volley),
    EmptyClip,
    NoAction,
}

impl View for FireResult {
    type V = FireOutcome;

    open spec fn view(&self) -> FireOutcome {
        match self {
            FireResult::Shot(event) => FireOutcome::Shot(event@),
            FireResult::EmptyClip => FireOutcome::EmptyClip,
            FireResult::NoAction => FireOutcome::NoAction,
        }
    }
}

/// One thing that can happen to a gun.
pub enum GunStep {
    /// A frame of this many nanoseconds passes.
    Tick(nat),
    /// The trigger is pulled.
    Fire,
    /// A reload is asked for.
    Reload,
}

/// The gun as plain values.
pub struct GunModel {
    pub muzzle: MuzzleModel,
    pub receiver: Receiver,
    pub clip: ClipModel,
    pub trigger: TriggerModel,
    pub reload_timer: CountdownModel,
    pub reloading: bool,
}

impl GunModel {
    /// Every part is valid, and the reload countdown runs once.
    pub open spec fn valid(self) -> bool {
        &&& self.muzzle.valid()
        &&& self.clip.valid()
        &&& self.trigger.valid()
        &&& self.reload_timer.valid()
        &&& self.reload_timer.mode == TimerMode::Once
    }

    /// A gun of these parts that has not reloaded yet.
    pub open spec fn assembled(
        muzzle: MuzzleModel,
        receiver: Receiver,
        clip: ClipModel,
        trigger: TriggerModel,
    ) -> GunModel {
        GunModel {
            muzzle,
            receiver,
            clip,
            trigger,
            reload_timer: CountdownModel::fresh(0, TimerMode::Once),
            reloading: false,
        }
    }

    /// The gun that a player starts with: a fully loaded automatic hitscan
    /// weapon at rest.
    pub open spec fn standard() -> GunModel {
        GunModel::assembled(
            MuzzleModel {
                min_spread: 0,
                max_spread: 30_000,
                current_spread: 0,
                bloom: 1000,
                max_range: 30_000,
            },
            Receiver {
                fire_type: FireType::Hitscan,
                base_damage: 10,
                force_transfer: 1000,
                kick: 2000,
                spread_count: SpreadCount::OneShort,
            },
            ClipModel { max: 30, current: 30, reload_time: 1_000_000_000, clip_cost: 1000 },
            TriggerModel::ready(TriggerMode::Auto, AUTO_COOLDOWN as nat),
        )
    }

    /// The trigger is ready and no reload is under way.
    pub open spec fn can_fire(self) -> bool {
        self.trigger.pullable && !self.reloading
    }

    /// The gun after a frame of `delta` nanoseconds: trigger and reload count
    /// down, the spread cools, and a reload whose time is up is over.
    pub open spec fn ticked(self, delta: nat) -> GunModel {
        let reload_timer = self.reload_timer.ticked(delta);
        GunModel {
            trigger: self.trigger.ticked(delta),
            reload_timer,
            muzzle: self.muzzle.cooled(),
            reloading: self.reloading && !reload_timer.finished,
            ..self
        }
    }

    /// The `index`-th ray of a volley fired from `focus`.
    pub open spec fn raycast_shot(self, focus: CameraFocus, sampled: Seq<Vec3>, index: int)
        -> RaycastShot {
        RaycastShot {
            base_damage: self.receiver.base_damage,
            origin: focus.origin,
            dir: focus.aim(sampled, index),
            range: self.muzzle.max_range,
            force: self.receiver.force_transfer,
        }
    }

    /// The `index`-th projectile of a volley fired from `focus`.
    pub open spec fn projectile_shot(self, focus: CameraFocus, sampled: Seq<Vec3>, index: int)
        -> ProjectileShot {
        ProjectileShot {
            base_damage: self.receiver.base_damage,
            origin: focus.origin,
            dir: focus.aim(sampled, index),
            speed: PROJECTILE_SPEED,
            force: self.receiver.force_transfer,
        }
    }

    /// The volley that the gun releases from `focus`: as many shots as its
    /// fire type asks for, rays or projectiles, each along its own sampled
    /// direction.
    pub open spec fn volley(self, focus: CameraFocus, sampled: Seq<Vec3>) -> Volley {
        let count = self.receiver.fire_type.shots(self.receiver.spread_count);
        if self.receiver.fire_type.is_hitscan() {
            Volley::Raycast(Seq::new(count, |i: int| self.raycast_shot(focus, sampled, i)))
        } else {
            Volley::Projectile(Seq::new(count, |i: int| self.projectile_shot(focus, sampled, i)))
        }
    }

    /// What a pull of the trigger gives: nothing while the trigger cools or a
    /// reload runs, a dry click on an empty clip, a volley otherwise.
    pub open spec fn fire_outcome(self, focus: CameraFocus, sampled: Seq<Vec3>) -> FireOutcome {
        if !self.can_fire() {
            FireOutcome::NoAction
        } else if self.clip.current == 0 {
            FireOutcome::EmptyClip
        } else {
            FireOutcome::Shot(self.volley(focus, sampled))
        }
    }

    /// The gun after a pull of the trigger. Where it fired, a round is gone,
    /// the trigger cools and the spread has bloomed; where it did not, nothing
    /// has changed.
    pub open spec fn fired(self) -> GunModel {
        if self.can_fire() && self.clip.current > 0 {
            GunModel {
                clip: self.clip.spent(),
                trigger: self.trigger.fired(),
                muzzle: self.muzzle.bloomed(),
                ..self
            }
        } else {
            self
        }
    }

    /// The gun after a reload was asked for. A full clip changes nothing;
    /// otherwise the clip is full and the reload time starts to count.
    pub open spec fn reloaded(self) -> GunModel {
        if self.clip.missing() > 0 {
            GunModel {
                clip: self.clip.refilled(),
                reload_timer: CountdownModel::fresh(self.clip.reload_time, TimerMode::Once),
                reloading: true,
                ..self
            }
        } else {
            self
        }
    }

    /// The gun after one step.
    pub open spec fn step(self, step: GunStep) -> GunModel {
        match step {
            GunStep::Tick(delta) => self.ticked(delta),
            GunStep::Fire => self.fired(),
            GunStep::Reload => self.reloaded(),
        }
    }

    /// The gun after a sequence of steps, first to last.
    pub open spec fn run(self, steps: Seq<GunStep>) -> GunModel
        decreases steps.len(),
    {
        if steps.len() == 0 {
            self
        } else {
            self.run(steps.drop_last()).step(steps.last())
        }
    }
}

/// A weapon: it fires, cools down, blooms and reloads for money.
#[derive(Debug)]
pub struct Gun {
    muzzle: Muzzle,
    receiver: Receiver,
    clip: Clip,
    trigger: Trigger,
    reload_timer: Countdown,
    reloading: bool,
}

impl View for Gun {
    type V = GunModel;

    closed spec fn view(&self) -> GunModel {
        GunModel {
            muzzle: self.muzzle@,
            receiver: self.receiver,
            clip: self.clip@,
            trigger: self.trigger@,
            reload_timer: self.reload_timer@,
            reloading: self.reloading,
        }
    }
}

impl Default for Gun {
    /// The gun that a player starts with.
    fn default() -> (r: Gun)
        ensures
            r@ == GunModel::standard(),
    {
        let muzzle = Muzzle {
            min_spread: 0,
            max_spread: 30_000,
            current_spread: 0,
            bloom: 1000,
            max_range: 30_000,
        };
        let receiver = Receiver {
            fire_type: FireType::Hitscan,
            base_damage: 10,
            force_transfer: 1000,
            kick: 2000,
            spread_count: SpreadCount::OneShort,
        };
        Gun::new(muzzle, receiver, Clip::default(), Trigger::auto())
    }
}

impl Gun {
    #[verifier::type_invariant]
    spec fn well_formed(self) -> bool {
        self@.valid()
    }

    /// A gun of these parts that has not reloaded yet.
    pub fn new(muzzle: Muzzle, receiver: Receiver, clip: Clip, trigger: Trigger) -> (r: Gun)
        ensures
            r@ == GunModel::assembled(muzzle@, receiver, clip@, trigger@),
            r@.valid(),
    {
        proof {
            use_type_invariant(&muzzle);
            use_type_invariant(&clip);
            use_type_invariant(&trigger);
        }
        Gun {
            muzzle,
            receiver,
            clip,
            trigger,
            reload_timer: Countdown::new(0, TimerMode::Once),
            reloading: false,
        }
    }

    /// Lets a frame of `delta` nanoseconds pass.
    pub fn tick(&mut self, delta: u64)
        ensures
            final(self)@ == old(self)@.ticked(delta as nat),
            final(self)@.valid(),
    {
        proof {
            use_type_invariant(&*self);
        }
        self.trigger.tick(delta);
        self.reload_timer.tick(delta);
        self.muzzle.reduce_spread();
        if self.reload_timer.finished() {
            self.reloading = false;
        }
    }

    /// The rays of a volley of `count` shots.
    fn raycast_volley(&self, focus: &CameraFocus, sampled: &Vec<Vec3>, count: u8) -> (shots: Vec<
        RaycastShot,
    >)
        ensures
            shots@ == Seq::new(count as nat, |i: int| self@.raycast_shot(*focus, sampled@, i)),
    {
        let mut shots: Vec<RaycastShot> = Vec::new();
        let mut i: u8 = 0;
        while i < count
            invariant
                i <= count,
                shots@ =~= Seq::new(i as nat, |k: int| self@.raycast_shot(*focus, sampled@, k)),
            decreases count - i,
        {
            shots.push(
                RaycastShot {
                    base_damage: self.receiver.base_damage,
                    origin: focus.origin(),
                    dir: focus.aim_at(sampled, i as usize),
                    range: self.muzzle.get_range(),
                    force: self.receiver.get_force(),
                },
            );
            i += 1;
        }
        shots
    }

    /// The projectiles of a volley of `count` shots.
    fn projectile_volley(&self, focus: &CameraFocus, sampled: &Vec<Vec3>, count: u8) -> (shots:
        Vec<ProjectileShot>)
        ensures
            shots@ == Seq::new(count as nat, |i: int| self@.projectile_shot(*focus, sampled@, i)),
    {
        let mut shots: Vec<ProjectileShot> = Vec::new();
        let mut i: u8 = 0;
        while i < count
            invariant
                i <= count,
                shots@ =~= Seq::new(i as nat, |k: int| self@.projectile_shot(*focus, sampled@, k)),
            decreases count - i,
        {
            shots.push(
                ProjectileShot {
                    base_damage: self.receiver.base_damage,
                    origin: focus.origin(),
                    dir: focus.aim_at(sampled, i as usize),
                    speed: PROJECTILE_SPEED,
                    force: self.receiver.get_force(),
                },
            );
            i += 1;
        }
        shots
    }

    /// Pulls the trigger.
    ///
    /// `sampled` holds the directions drawn for this volley within the cone of
    /// the current spread, one for each shot; a shot without one flies
    /// straight ahead. Nothing happens while the trigger cools or a reload
    /// runs. On an empty clip the result is `EmptyClip` and the gun stays as
    /// it is. Otherwise one round is spent, the volley leaves from the focus,
    /// the trigger starts to cool and the spread blooms.
    pub fn fire(&mut self, focus: &CameraFocus, sampled: &Vec<Vec3>) -> (r: FireResult)
        ensures
            r@ == old(self)@.fire_outcome(*focus, sampled@),
            final(self)@ == old(self)@.fired(),
            final(self)@.valid(),
    {
        proof {
            use_type_invariant(&*self);
        }
        if self.trigger.can_fire() && !self.reloading {
            if self.clip.spend_ammo() {
                let count: u8 = self.receiver.fire_type.shot_count(self.receiver.spread_count);
                let shot = match self.receiver.fire_type {
                    FireType::Hitscan | FireType::HitscanSpread(_) => ShotEvent::Raycast(
                        self.raycast_volley(focus, sampled, count),
                    ),
                    FireType::Projectile | FireType::ProjectileSpread(_) => ShotEvent::Projectile(
                        self.projectile_volley(focus, sampled, count),
                    ),
                };
                proof {
                    let before = old(self)@;
                    assert(self@.receiver == before.receiver);
                    assert(self@.muzzle == before.muzzle);
                    assert(Seq::new(count as nat, |i: int| self@.raycast_shot(*focus, sampled@, i))
                        =~= Seq::new(
                        count as nat,
                        |i: int| before.raycast_shot(*focus, sampled@, i),
                    ));
                    assert(Seq::new(
                        count as nat,
                        |i: int| self@.projectile_shot(*focus, sampled@, i),
                    ) =~= Seq::new(
                        count as nat,
                        |i: int| before.projectile_shot(*focus, sampled@, i),
                    ));
                }
                self.trigger.fire();
                self.muzzle.increase_spread();
                FireResult::Shot(shot)
            } else {
                FireResult::EmptyClip
            }
        } else {
            FireResult::NoAction
        }
    }

    /// The rounds in the clip.
    pub fn current_ammo(&self) -> (r: u8)
        ensures
            r == self@.clip.current,
            self@.valid(),
    {
        proof {
            use_type_invariant(self);
        }
        self.clip.get_clip_stats().current
    }

    /// How full the clip is.
    pub fn clip_stats(&self) -> (r: ClipStats)
        ensures
            r.max == self@.clip.max,
            r.current == self@.clip.current,
    {
        self.clip.get_clip_stats()
    }

    /// The current spread, in thousandths of a degree.
    pub fn get_spread(&self) -> (r: u32)
        ensures
            r == self@.muzzle.current_spread,
    {
        self.muzzle.get_spread()
    }

    /// The number of shots in a volley of this gun.
    pub fn shots_per_volley(&self) -> (r: u8)
        ensures
            r == self@.receiver.fire_type.shots(self@.receiver.spread_count),
    {
        self.receiver.fire_type.shot_count(self.receiver.spread_count)
    }

    /// Draws how far each shot of the next volley strays: one stray for each
    /// shot, none wider than the current spread.
    pub fn sample_jitter(&self) -> (r: Vec<Jitter>)
        ensures
            r@.len() == self@.receiver.fire_type.shots(self@.receiver.spread_count),
            forall|i: int|
                0 <= i < r@.len() ==> (#[trigger] r@[i]).within(self@.muzzle.current_spread),
    {
        let count: u8 = self.shots_per_volley();
        let spread: u32 = self.muzzle.get_spread();
        let mut strays: Vec<Jitter> = Vec::new();
        let mut i: u8 = 0;
        while i < count
            invariant
                i <= count,
                strays@.len() == i,
                forall|k: int| 0 <= k < strays@.len() ==> (#[trigger] strays@[k]).within(spread as nat),
            decreases count - i,
        {
            strays.push(Jitter::sample(spread));
            i += 1;
        }
        strays
    }

    /// What a reload would cost now.
    pub fn reload_cost(&self) -> (r: Money)
        ensures
            r@ == self@.clip.reload_cost(),
            0 <= r@ <= self@.clip.clip_cost,
    {
        self.clip.reload_cost()
    }

    /// Fills the clip up for money.
    ///
    /// A full clip costs nothing and starts nothing. Otherwise the wallet
    /// pays the missing share of the clip's cost at once, whether it holds
    /// that much or not, the clip is full, and the gun is reloading for the
    /// clip's reload time.
    pub fn reload(&mut self, wallet: &mut Wallet)
        requires
            old(wallet)@ - old(self)@.clip.reload_cost() >= i64::MIN,
        ensures
            final(self)@ == old(self)@.reloaded(),
            final(wallet)@ == old(wallet)@ - old(self)@.clip.reload_cost(),
            final(self)@.valid(),
    {
        proof {
            use_type_invariant(&*self);
        }
        let cost = self.clip.reload_cost();
        let missing: u8 = self.clip.reload();
        if missing > 0 {
            proof {
                wallet.lemma_funds_in_range();
            }
            wallet.debit(cost);
            self.reload_timer = Countdown::new(self.clip.get_reload_time(), TimerMode::Once);
            self.reloading = true;
        }
    }

    /// Whether a reload is under way.
    pub fn is_reloading(&self) -> (r: bool)
        ensures
            r == self@.reloading,
    {
        self.reloading
    }

    /// How the trigger answers a held button.
    pub fn get_trigger_mode(&self) -> (r: TriggerMode)
        ensures
            r == self@.trigger.trigger_mode,
    {
        self.trigger.get_trigger_mode()
    }
}

/// The nanoseconds that pass over a sequence of steps.
pub open spec fn time_passed(steps: Seq<GunStep>) -> nat
    decreases steps.len(),
{
    if steps.len() == 0 {
        0
    } else {
        time_passed(steps.drop_last()) + match steps.last() {
            GunStep::Tick(delta) => delta,
            _ => 0,
        }
    }
}

/// Every step of the sequence is a tick.
pub open spec fn only_ticks(steps: Seq<GunStep>) -> bool {
    forall|i: int| 0 <= i < steps.len() ==> steps[i] is Tick
}

/// No step of the sequence is a reload.
pub open spec fn no_reload(steps: Seq<GunStep>) -> bool {
    forall|i: int| 0 <= i < steps.len() ==> !(steps[i] is Reload)
}

/// One step keeps a valid gun valid and leaves its limits alone.
proof fn lemma_step_keeps_valid(gun: GunModel, step: GunStep)
    requires
        gun.valid(),
    ensures
        gun.step(step).valid(),
        gun.step(step).muzzle.min_spread == gun.muzzle.min_spread,
        gun.step(step).muzzle.max_spread == gun.muzzle.max_spread,
        gun.step(step).clip.max == gun.clip.max,
        gun.step(step).trigger.shot_timer.duration == gun.trigger.shot_timer.duration,
{
    match step {
        GunStep::Tick(delta) => {
            crate::timer::law_tick_bounded(gun.trigger.shot_timer, delta);
            crate::timer::law_tick_bounded(gun.reload_timer, delta);
        },
        GunStep::Fire => {},
        GunStep::Reload => {},
    }
}

/// Whatever is done to a gun, in whatever order, its spread stays between
/// its two limits and its clip holds no more than its capacity.
pub proof fn law_spread_and_ammo_stay_bounded(gun: GunModel, steps: Seq<GunStep>)
    requires
        gun.valid(),
    ensures
        gun.run(steps).valid(),
        gun.run(steps).muzzle.min_spread == gun.muzzle.min_spread,
        gun.run(steps).muzzle.max_spread == gun.muzzle.max_spread,
        gun.muzzle.min_spread <= gun.run(steps).muzzle.current_spread <= gun.muzzle.max_spread,
        gun.run(steps).clip.max == gun.clip.max,
        gun.run(steps).clip.current <= gun.clip.max,
        gun.run(steps).trigger.shot_timer.duration == gun.trigger.shot_timer.duration,
    decreases steps.len(),
{
    if steps.len() > 0 {
        law_spread_and_ammo_stay_bounded(gun, steps.drop_last());
        lemma_step_keeps_valid(gun.run(steps.drop_last()), steps.last());
    }
}

/// As long as no reload comes between, firing and waiting never add a round
/// to the clip: from any point of the sequence to its end the ammunition has
/// only gone down, and not below zero.
pub proof fn law_ammo_never_grows_without_reload(gun: GunModel, steps: Seq<GunStep>)
    requires
        gun.valid(),
        no_reload(steps),
    ensures
        0 <= gun.run(steps).clip.current <= gun.clip.current,
        forall|k: int|
            0 <= k <= steps.len() ==> gun.run(steps).clip.current <= (#[trigger] gun.run(
                steps.take(k),
            )).clip.current,
    decreases steps.len(),
{
    if steps.len() > 0 {
        let earlier = steps.drop_last();
        assert(no_reload(earlier)) by {
            assert forall|i: int| 0 <= i < earlier.len() implies !(earlier[i] is Reload) by {
                assert(earlier[i] == steps[i]);
            }
        }
        law_ammo_never_grows_without_reload(gun, earlier);
        assert(!(steps[steps.len() - 1] is Reload));
        assert forall|k: int| 0 <= k <= steps.len() implies gun.run(steps).clip.current <= (
        #[trigger] gun.run(steps.take(k))).clip.current by {
            if k < steps.len() {
                assert(steps.take(k) =~= earlier.take(k));
            } else {
                assert(steps.take(k) =~= steps);
            }
        }
    } else {
        assert forall|k: int| 0 <= k <= steps.len() implies gun.run(steps).clip.current <= (
        #[trigger] gun.run(steps.take(k))).clip.current by {
            assert(steps.take(k) =~= steps);
        }
    }
}

/// A reload fills the clip at once, and the clip is still full when the
/// reload time has passed, whatever it held before. Until that time has
/// passed the gun is reloading and cannot fire; from the first frame on which
/// it has passed, the gun is no longer reloading.
pub proof fn law_reload_restores_full_clip(gun: GunModel, steps: Seq<GunStep>)
    requires
        gun.valid(),
        only_ticks(steps),
    ensures
        gun.reloaded().run(steps).clip.current == gun.clip.max,
        gun.clip.current < gun.clip.max && time_passed(steps) < gun.clip.reload_time
            ==> gun.reloaded().run(steps).reloading && !gun.reloaded().run(steps).can_fire(),
        gun.clip.current < gun.clip.max && steps.len() > 0 && time_passed(steps)
            >= gun.clip.reload_time ==> !gun.reloaded().run(steps).reloading,
    decreases steps.len(),
{
    if steps.len() > 0 {
        let earlier = steps.drop_last();
        assert(only_ticks(earlier)) by {
            assert forall|i: int| 0 <= i < earlier.len() implies earlier[i] is Tick by {
                assert(earlier[i] == steps[i]);
            }
        }
        law_reload_restores_full_clip(gun, earlier);
        assert(steps[steps.len() - 1] is Tick);
    }
    if gun.clip.current < gun.clip.max {
        lemma_reload_countdown(gun, steps);
    }
}

/// While only time passes after a real reload, the reload countdown holds
/// the time that has passed, up to the reload time.
proof fn lemma_reload_countdown(gun: GunModel, steps: Seq<GunStep>)
    requires
        gun.valid(),
        only_ticks(steps),
        gun.clip.current < gun.clip.max,
    ensures
        ({
            let after = gun.reloaded().run(steps);
            &&& after.reload_timer.duration == gun.clip.reload_time
            &&& after.reload_timer.mode == TimerMode::Once
            &&& after.reloading == !after.reload_timer.finished
            &&& !after.reload_timer.finished ==> after.reload_timer.elapsed == time_passed(steps)
                && (time_passed(steps) < gun.clip.reload_time || steps.len() == 0)
            &&& after.reload_timer.finished ==> time_passed(steps) >= gun.clip.reload_time
                && steps.len() > 0
        }),
    decreases steps.len(),
{
    if steps.len() > 0 {
        let earlier = steps.drop_last();
        assert(only_ticks(earlier)) by {
            assert forall|i: int| 0 <= i < earlier.len() implies earlier[i] is Tick by {
                assert(earlier[i] == steps[i]);
            }
        }
        lemma_reload_countdown(gun, earlier);
        assert(steps[steps.len() - 1] is Tick);
    }
}

/// The price of a reload is the missing share of the clip's cost,
/// `(1 - current / max) * clip_cost`, to within half a cent; a full clip
/// reloads for nothing and an empty one for the whole cost.
pub proof fn law_reload_cost_is_proportional(current: nat, max: nat, clip_cost: int)
    requires
        current <= max,
        max > 0,
        clip_cost >= 0,
    ensures
        -(max as int) < 2 * (reload_cost(current, max, clip_cost) * max - clip_cost * (max
            - current)) <= max,
        current == max ==> reload_cost(current, max, clip_cost) == 0,
        current == 0 ==> reload_cost(current, max, clip_cost) == clip_cost,
        0 <= reload_cost(current, max, clip_cost) <= clip_cost,
{
    let missing = (max - current) as nat;
    let cost = reload_cost(current, max, clip_cost);
    if current < max {
        let n = 2 * clip_cost * missing + max;
        let d = 2 * max as int;
        assert(0 <= n) by (nonlinear_arith)
            requires
                n == 2 * clip_cost * missing + max,
                clip_cost >= 0,
        ;
        assert(cost == n / d);
        vstd::arithmetic::div_mod::lemma_fundamental_div_mod(n, d);
        vstd::arithmetic::div_mod::lemma_mod_bound(n, d);
        assert(d * cost == 2 * (cost * max)) by (nonlinear_arith)
            requires
                d == 2 * max,
        ;
        assert(2 * clip_cost * missing == 2 * (clip_cost * missing)) by (nonlinear_arith);
        lemma_rounded_share_bounded(clip_cost, missing, max);
        if current == 0 {
            assert(n == d * clip_cost + max) by (nonlinear_arith)
                requires
                    n == 2 * clip_cost * missing + max,
                    d == 2 * max,
                    missing == max,
            ;
            vstd::arithmetic::div_mod::lemma_fundamental_div_mod_converse(
                n,
                d,
                clip_cost,
                max as int,
            );
        }
    } else {
        assert(clip_cost * (max - current) == 0) by (nonlinear_arith)
            requires
                max == current,
        ;
    }
}

/// Right after a shot the trigger is cooling: until the cooldown has passed,
/// another pull does nothing at all, spends no round and releases no shot.
/// From the first frame on which it has passed, the trigger is ready again,
/// and a pull fires if a round is left.
pub proof fn law_cooldown_gates_fire(
    gun: GunModel,
    steps: Seq<GunStep>,
    focus: CameraFocus,
    sampled: Seq<Vec3>,
)
    requires
        gun.valid(),
        gun.can_fire(),
        gun.clip.current > 0,
        only_ticks(steps),
    ensures
        ({
            let cooldown = gun.trigger.shot_timer.duration;
            let later = gun.fired().run(steps);
            &&& later.clip.current == gun.clip.current - 1
            &&& time_passed(steps) < cooldown ==> later.fire_outcome(focus, sampled)
                == FireOutcome::NoAction && later.fired() == later
            &&& steps.len() > 0 && time_passed(steps) >= cooldown ==> later.can_fire() && (
            later.clip.current > 0 ==> later.fire_outcome(focus, sampled) is Shot
                && later.fired().clip.current == later.clip.current - 1)
        }),
{
    lemma_cooldown(gun, steps);
}

/// While only time passes after a shot, the trigger's countdown holds the
/// time that has passed until the cooldown is reached, and the trigger is
/// ready from then on.
proof fn lemma_cooldown(gun: GunModel, steps: Seq<GunStep>)
    requires
        gun.valid(),
        gun.can_fire(),
        gun.clip.current > 0,
        only_ticks(steps),
    ensures
        ({
            let cooldown = gun.trigger.shot_timer.duration;
            let later = gun.fired().run(steps);
            &&& later.clip.current == gun.clip.current - 1
            &&& !later.reloading
            &&& later.trigger.shot_timer.duration == cooldown
            &&& later.trigger.shot_timer.mode == TimerMode::Repeating
            &&& !later.trigger.pullable ==> later.trigger.shot_timer.elapsed == time_passed(steps)
                && (time_passed(steps) < cooldown || steps.len() == 0)
            &&& later.trigger.pullable ==> time_passed(steps) >= cooldown && steps.len() > 0
        }),
    decreases steps.len(),
{
    if steps.len() > 0 {
        let earlier = steps.drop_last();
        assert(only_ticks(earlier)) by {
            assert forall|i: int| 0 <= i < earlier.len() implies earlier[i] is Tick by {
                assert(earlier[i] == steps[i]);
            }
        }
        lemma_cooldown(gun, earlier);
        assert(steps[steps.len() - 1] is Tick);
    }
}

} // verus!
