use bevy::math::Vec3;
use gunplay::focus::{CameraFocus, Jitter};
use gunplay::money::{Money, Wallet};
use gunplay::weapon::{
    Clip, FireResult, FireType, Gun, Muzzle, ProjectileShot, RaycastShot, Receiver, ShotEvent,
    SpreadCount, Trigger, TriggerMode,
};

const SECOND: u64 = 1_000_000_000;
const MILLI: u64 = 1_000_000;

fn focus() -> CameraFocus {
    CameraFocus::new(Vec3::ZERO, Vec3::Z, Vec3::X)
}

fn receiver(fire_type: FireType, spread_count: SpreadCount) -> Receiver {
    Receiver { fire_type, base_damage: 7, force_transfer: 1500, kick: 2000, spread_count }
}

fn gun_with(fire_type: FireType, spread_count: SpreadCount, current: u8, bloom: u32) -> Gun {
    Gun::new(
        Muzzle::new(1_000, 21_000, bloom, 40_000).unwrap(),
        receiver(fire_type, spread_count),
        Clip::new(30, current, SECOND, Money::from_cents(1000)).unwrap(),
        Trigger::auto(),
    )
}

#[test]
fn default_gun_is_a_loaded_automatic_hitscan_weapon() {
    let gun = Gun::default();
    assert_eq!(gun.current_ammo(), 30);
    assert_eq!(gun.clip_stats().max, 30);
    assert_eq!(gun.get_spread(), 0);
    assert_eq!(gun.shots_per_volley(), 1);
    assert_eq!(gun.get_trigger_mode(), TriggerMode::Auto);
    assert!(!gun.is_reloading());
    assert_eq!(gun.reload_cost().cents(), 0);
}

#[test]
fn dry_fire_on_an_empty_clip() {
    let mut gun = gun_with(FireType::Hitscan, SpreadCount::Exact, 0, 1000);
    assert_eq!(gun.fire(&focus(), &vec![Vec3::Z]), FireResult::EmptyClip);
    assert_eq!(gun.current_ammo(), 0);
    // the trigger did not start to cool and the spread did not bloom
    assert_eq!(gun.get_spread(), 1_000);
    assert_eq!(gun.fire(&focus(), &vec![Vec3::Z]), FireResult::EmptyClip);
}

#[test]
fn single_hitscan_shot_leaves_from_the_focus() {
    let mut gun = Gun::default();
    let fired = gun.fire(&focus(), &vec![Vec3::Z]);
    assert_eq!(
        fired,
        FireResult::Shot(ShotEvent::Raycast(vec![RaycastShot {
            base_damage: 10,
            origin: Vec3::ZERO,
            dir: Vec3::Z,
            range: 30_000,
            force: 1000,
        }]))
    );
    assert_eq!(gun.current_ammo(), 29);
}

#[test]
fn shots_follow_their_sampled_directions_and_fly_straight_without_one() {
    let mut gun = gun_with(FireType::HitscanSpread(3), SpreadCount::Exact, 30, 1000);
    let a = Vec3::new(0.1, 0.0, 0.9);
    let b = Vec3::new(-0.1, 0.2, 0.9);
    match gun.fire(&focus(), &vec![a, b]) {
        FireResult::Shot(ShotEvent::Raycast(shots)) => {
            assert_eq!(shots.len(), 3);
            assert_eq!(shots[0].dir, a);
            assert_eq!(shots[1].dir, b);
            assert_eq!(shots[2].dir, Vec3::Z);
            for shot in &shots {
                assert_eq!(shot.origin, Vec3::ZERO);
                assert_eq!(shot.base_damage, 7);
                assert_eq!(shot.range, 40_000);
                assert_eq!(shot.force, 1500);
            }
        }
        other => panic!("expected a volley of rays, got {:?}", other),
    }
    assert_eq!(gun.current_ammo(), 29);
}

#[test]
fn spread_count_decides_how_many_shots_a_spread_releases() {
    let cases: Vec<(FireType, SpreadCount, usize)> = vec![
        (FireType::HitscanSpread(5), SpreadCount::Exact, 5),
        (FireType::HitscanSpread(5), SpreadCount::OneShort, 4),
        (FireType::HitscanSpread(1), SpreadCount::OneShort, 0),
        (FireType::HitscanSpread(0), SpreadCount::OneShort, 0),
        (FireType::HitscanSpread(0), SpreadCount::Exact, 0),
        (FireType::Hitscan, SpreadCount::OneShort, 1),
    ];
    for (fire_type, rule, expected) in cases {
        let mut gun = gun_with(fire_type, rule, 30, 1000);
        assert_eq!(gun.shots_per_volley() as usize, expected);
        match gun.fire(&focus(), &vec![]) {
            FireResult::Shot(ShotEvent::Raycast(shots)) => assert_eq!(shots.len(), expected),
            other => panic!("expected rays, got {:?}", other),
        }
        assert_eq!(gun.current_ammo(), 29);
    }
}

#[test]
fn projectile_weapons_release_projectiles() {
    let mut single = gun_with(FireType::Projectile, SpreadCount::Exact, 30, 1000);
    assert_eq!(
        single.fire(&focus(), &vec![Vec3::Y]),
        FireResult::Shot(ShotEvent::Projectile(vec![ProjectileShot {
            base_damage: 7,
            origin: Vec3::ZERO,
            dir: Vec3::Y,
            speed: 30_000,
            force: 1500,
        }]))
    );
    let mut exact = gun_with(FireType::ProjectileSpread(3), SpreadCount::Exact, 30, 1000);
    match exact.fire(&focus(), &vec![]) {
        FireResult::Shot(ShotEvent::Projectile(shots)) => assert_eq!(shots.len(), 3),
        other => panic!("expected projectiles, got {:?}", other),
    }
    let mut short = gun_with(FireType::ProjectileSpread(3), SpreadCount::OneShort, 30, 1000);
    match short.fire(&focus(), &vec![]) {
        FireResult::Shot(ShotEvent::Projectile(shots)) => assert_eq!(shots.len(), 2),
        other => panic!("expected projectiles, got {:?}", other),
    }
}

#[test]
fn ammo_only_goes_down_without_a_reload() {
    let mut gun = gun_with(FireType::Hitscan, SpreadCount::Exact, 5, 1000);
    let mut last = gun.current_ammo();
    let mut shots = 0;
    for step in 0..40 {
        if step % 3 == 0 {
            gun.tick(60 * MILLI);
        } else if let FireResult::Shot(_) = gun.fire(&focus(), &vec![]) {
            shots += 1;
        }
        let now = gun.current_ammo();
        assert!(now <= last);
        last = now;
    }
    assert_eq!(shots, 5);
    assert_eq!(gun.current_ammo(), 0);
    gun.tick(SECOND);
    assert_eq!(gun.fire(&focus(), &vec![]), FireResult::EmptyClip);
    assert_eq!(gun.current_ammo(), 0);
}

#[test]
fn trigger_cools_down_between_shots() {
    let mut gun = Gun::default();
    assert!(matches!(gun.fire(&focus(), &vec![]), FireResult::Shot(_)));
    assert_eq!(gun.fire(&focus(), &vec![]), FireResult::NoAction);
    assert_eq!(gun.current_ammo(), 29);
    gun.tick(60 * MILLI);
    gun.tick(39 * MILLI);
    assert_eq!(gun.fire(&focus(), &vec![]), FireResult::NoAction);
    assert_eq!(gun.current_ammo(), 29);
    gun.tick(MILLI);
    assert!(matches!(gun.fire(&focus(), &vec![]), FireResult::Shot(_)));
    assert_eq!(gun.current_ammo(), 28);
}

#[test]
fn semi_automatic_trigger_cools_for_three_tenths_of_a_second() {
    let mut trigger = Trigger::semi_auto();
    assert_eq!(trigger.get_trigger_mode(), TriggerMode::SemiAuto);
    assert!(trigger.can_fire());
    trigger.fire();
    assert!(!trigger.can_fire());
    trigger.tick(299 * MILLI);
    assert!(!trigger.can_fire());
    trigger.tick(MILLI);
    assert!(trigger.can_fire());
    // a ready trigger does not count time: the next cooldown is whole again
    trigger.tick(250 * MILLI);
    trigger.fire();
    trigger.tick(299 * MILLI);
    assert!(!trigger.can_fire());
}

#[test]
fn trigger_with_its_own_cooldown() {
    let mut trigger = Trigger::new(TriggerMode::Auto, 0);
    trigger.fire();
    assert!(!trigger.can_fire());
    trigger.tick(0);
    assert!(trigger.can_fire());
}

#[test]
fn spread_blooms_with_shots_and_cools_with_frames() {
    let mut gun = gun_with(FireType::Hitscan, SpreadCount::Exact, 30, 500);
    assert_eq!(gun.get_spread(), 1_000);
    assert!(matches!(gun.fire(&focus(), &vec![]), FireResult::Shot(_)));
    // half of the 20 degrees that were left
    assert_eq!(gun.get_spread(), 11_000);
    gun.tick(100 * MILLI);
    // an eighth of the 10 degrees above the lower limit
    assert_eq!(gun.get_spread(), 9_750);
    assert!(matches!(gun.fire(&focus(), &vec![]), FireResult::Shot(_)));
    assert_eq!(gun.get_spread(), 15_375);
    for _ in 0..400 {
        gun.tick(MILLI);
        assert!(gun.get_spread() >= 1_000 && gun.get_spread() <= 21_000);
    }
    // cooling stalls once an eighth of the distance rounds down to nothing
    assert_eq!(gun.get_spread(), 1_007);
}

#[test]
fn spread_never_leaves_its_limits_under_an_excessive_bloom() {
    let mut gun = gun_with(FireType::Hitscan, SpreadCount::Exact, 30, 9_000);
    assert!(matches!(gun.fire(&focus(), &vec![]), FireResult::Shot(_)));
    assert_eq!(gun.get_spread(), 21_000);
    gun.tick(100 * MILLI);
    assert_eq!(gun.get_spread(), 1_000);
    gun.tick(100 * MILLI);
    assert_eq!(gun.get_spread(), 1_000);
}

#[test]
fn default_gun_blooms_to_its_limit_at_once() {
    let mut gun = Gun::default();
    assert!(matches!(gun.fire(&focus(), &vec![]), FireResult::Shot(_)));
    assert_eq!(gun.get_spread(), 30_000);
    gun.tick(10 * MILLI);
    assert_eq!(gun.get_spread(), 22_500);
}

#[test]
fn reload_economics() {
    let mut gun = gun_with(FireType::Hitscan, SpreadCount::Exact, 10, 1000);
    let mut wallet = Wallet::default();
    assert_eq!(wallet.funds().cents(), 2530);
    assert_eq!(gun.reload_cost().cents(), 667);
    gun.reload(&mut wallet);
    assert_eq!(wallet.funds().cents(), 2530 - 667);
    assert!(gun.is_reloading());
    gun.tick(SECOND);
    assert!(!gun.is_reloading());
    assert_eq!(gun.current_ammo(), 30);
}

#[test]
fn reload_restores_a_full_clip_from_any_fill() {
    for current in 0..=30u8 {
        let mut gun = gun_with(FireType::Hitscan, SpreadCount::Exact, current, 1000);
        let mut wallet = Wallet::new(Money::from_cents(100_000));
        gun.reload(&mut wallet);
        gun.tick(400 * MILLI);
        gun.tick(600 * MILLI);
        assert_eq!(gun.current_ammo(), 30);
        assert!(!gun.is_reloading());
    }
}

#[test]
fn reload_cost_is_the_missing_share_of_the_clip_cost() {
    let cases: Vec<(u8, u8, i64, i64)> = vec![
        (30, 30, 1000, 0),
        (0, 30, 1000, 1000),
        (10, 30, 1000, 667),
        (20, 30, 1000, 333),
        (15, 30, 1001, 501),
        (29, 30, 1000, 33),
        (1, 3, 100, 67),
        (0, 0, 1000, 0),
        (3, 8, 0, 0),
        (254, 255, 1, 0),
        (127, 255, 1, 1),
    ];
    for (current, max, cost, expected) in cases {
        let clip = Clip::new(max, current, SECOND, Money::from_cents(cost)).unwrap();
        assert_eq!(clip.reload_cost().cents(), expected);
    }
}

#[test]
fn reloading_a_full_clip_costs_nothing_and_starts_nothing() {
    let mut gun = Gun::default();
    let mut wallet = Wallet::default();
    gun.reload(&mut wallet);
    assert_eq!(wallet.funds().cents(), 2530);
    assert!(!gun.is_reloading());
    assert!(matches!(gun.fire(&focus(), &vec![]), FireResult::Shot(_)));
}

#[test]
fn a_reload_under_way_blocks_the_trigger() {
    let mut gun = gun_with(FireType::Hitscan, SpreadCount::Exact, 3, 1000);
    let mut wallet = Wallet::default();
    gun.reload(&mut wallet);
    assert_eq!(gun.current_ammo(), 30);
    assert_eq!(gun.fire(&focus(), &vec![]), FireResult::NoAction);
    gun.tick(999 * MILLI);
    assert!(gun.is_reloading());
    assert_eq!(gun.fire(&focus(), &vec![]), FireResult::NoAction);
    assert_eq!(gun.current_ammo(), 30);
    gun.tick(MILLI);
    assert!(!gun.is_reloading());
    assert!(matches!(gun.fire(&focus(), &vec![]), FireResult::Shot(_)));
    assert_eq!(gun.current_ammo(), 29);
}

#[test]
fn a_reload_may_leave_the_wallet_in_debt() {
    let mut gun = gun_with(FireType::Hitscan, SpreadCount::Exact, 0, 1000);
    let mut wallet = Wallet::new(Money::from_cents(250));
    gun.reload(&mut wallet);
    assert_eq!(wallet.funds().cents(), -750);
    assert_eq!(gun.current_ammo(), 30);
}

#[test]
fn parts_that_cannot_be() {
    assert!(Muzzle::new(5, 4, 1000, 0).is_none());
    assert!(Muzzle::new(4, 4, 1000, 0).is_some());
    assert!(Clip::new(30, 31, SECOND, Money::from_cents(1)).is_none());
    assert!(Clip::new(30, 30, SECOND, Money::from_cents(-1)).is_none());
    assert!(Clip::new(0, 0, 0, Money::from_cents(0)).is_some());
}

#[test]
fn clip_spends_and_refills() {
    let mut clip = Clip::new(3, 1, 5, Money::from_cents(90)).unwrap();
    assert_eq!(clip.get_reload_time(), 5);
    assert!(clip.spend_ammo());
    assert!(!clip.spend_ammo());
    assert_eq!(clip.get_clip_stats().current, 0);
    assert_eq!(clip.reload(), 3);
    assert_eq!(clip.get_clip_stats().current, 3);
    assert_eq!(clip.reload(), 0);
    let full = Clip::default();
    assert_eq!(full.get_clip_stats().max, 30);
    assert_eq!(full.get_clip_stats().current, 30);
    assert_eq!(full.get_reload_time(), SECOND);
}

#[test]
fn muzzle_moves_by_shares_of_the_distance() {
    let mut muzzle = Muzzle::new(0, 10_000, 250, 9).unwrap();
    assert_eq!(muzzle.get_range(), 9);
    muzzle.increase_spread();
    assert_eq!(muzzle.get_spread(), 2_500);
    muzzle.increase_spread();
    assert_eq!(muzzle.get_spread(), 4_375);
    muzzle.reduce_spread();
    // 4375 * 250 / 4000 = 273.4...
    assert_eq!(muzzle.get_spread(), 4_102);
    let receiver = receiver(FireType::Hitscan, SpreadCount::Exact);
    assert_eq!(receiver.get_force(), 1500);
    assert_eq!(FireType::ProjectileSpread(9).shot_count(SpreadCount::OneShort), 8);
}

#[test]
fn jitter_is_drawn_for_each_shot_within_the_spread() {
    let mut gun = gun_with(FireType::HitscanSpread(6), SpreadCount::Exact, 30, 500);
    // at rest the spread is at its lower limit of one degree
    let mut seen: Vec<Jitter> = Vec::new();
    for _ in 0..50 {
        let strays = gun.sample_jitter();
        assert_eq!(strays.len(), 6);
        for stray in strays {
            assert!(stray.yaw >= -1_000 && stray.yaw <= 1_000);
            assert!(stray.pitch >= -1_000 && stray.pitch <= 1_000);
            seen.push(stray);
        }
    }
    // three hundred draws from a million possibilities are not all alike
    assert!(seen.iter().any(|stray| *stray != seen[0]));
    assert!(matches!(gun.fire(&focus(), &vec![]), FireResult::Shot(_)));
    assert_eq!(gun.get_spread(), 11_000);
    for stray in gun.sample_jitter() {
        assert!(stray.yaw.abs() <= 11_000 && stray.pitch.abs() <= 11_000);
    }
    let still = Gun::default();
    assert_eq!(still.sample_jitter(), vec![Jitter { yaw: 0, pitch: 0 }]);
    assert_eq!(Jitter::sample(0), Jitter { yaw: 0, pitch: 0 });
    let short = gun_with(FireType::HitscanSpread(1), SpreadCount::OneShort, 30, 500);
    assert!(short.sample_jitter().is_empty());
}
