use bevy::time::{Timer, TimerMode as EngineMode};
use gunplay::timer::{Countdown, TimerMode};
use std::time::Duration;

#[test]
fn one_shot_countdown_stops_at_its_duration() {
    let mut timer = Countdown::new(10, TimerMode::Once);
    assert_eq!(timer.duration(), 10);
    assert_eq!(timer.mode(), TimerMode::Once);
    timer.tick(4);
    assert_eq!(timer.elapsed(), 4);
    assert!(!timer.finished());
    assert!(!timer.just_finished());
    timer.tick(500);
    assert_eq!(timer.elapsed(), 10);
    assert!(timer.finished());
    assert!(timer.just_finished());
    timer.tick(1);
    assert_eq!(timer.elapsed(), 10);
    assert!(timer.finished());
    assert!(!timer.just_finished());
    timer.reset();
    assert_eq!(timer.elapsed(), 0);
    assert!(!timer.finished());
}

#[test]
fn repeating_countdown_wraps_round() {
    let mut timer = Countdown::new(8, TimerMode::Repeating);
    timer.tick(3);
    assert_eq!(timer.elapsed(), 3);
    assert!(!timer.finished());
    timer.tick(6);
    assert_eq!(timer.elapsed(), 1);
    assert!(timer.finished());
    assert!(timer.just_finished());
    timer.tick(4);
    assert_eq!(timer.elapsed(), 5);
    assert!(!timer.finished());
    assert!(!timer.just_finished());
    timer.tick(27);
    assert_eq!(timer.elapsed(), 0);
    assert!(timer.finished());
}

#[test]
fn countdown_at_the_edges() {
    let mut zero = Countdown::new(0, TimerMode::Once);
    assert!(!zero.finished());
    zero.tick(0);
    assert!(zero.finished());
    let mut round = Countdown::new(0, TimerMode::Repeating);
    round.tick(7);
    assert!(round.finished());
    assert_eq!(round.elapsed(), 0);
    let mut long = Countdown::new(u64::MAX, TimerMode::Repeating);
    long.tick(u64::MAX - 1);
    assert!(!long.finished());
    long.tick(u64::MAX);
    assert!(long.finished());
    assert_eq!(long.elapsed(), u64::MAX - 1);
    let mut once = Countdown::new(u64::MAX, TimerMode::Once);
    once.tick(u64::MAX - 1);
    once.tick(u64::MAX);
    assert!(once.finished());
    assert_eq!(once.elapsed(), u64::MAX);
}

#[test]
fn countdown_keeps_time_as_the_engine_timer_does() {
    let deltas: [u64; 12] = [0, 1, 3, 7, 10, 4, 25, 0, 9, 100, 2, 33];
    for duration in [0u64, 1, 5, 10, 16, 1000] {
        for (mode, engine_mode) in
            [(TimerMode::Once, EngineMode::Once), (TimerMode::Repeating, EngineMode::Repeating)]
        {
            let mut countdown = Countdown::new(duration, mode);
            let mut timer = Timer::new(Duration::from_nanos(duration), engine_mode);
            for (step, delta) in deltas.iter().enumerate() {
                countdown.tick(*delta);
                timer.tick(Duration::from_nanos(*delta));
                assert_eq!(countdown.elapsed() as u128, timer.elapsed().as_nanos());
                assert_eq!(countdown.finished(), timer.finished());
                assert_eq!(countdown.just_finished(), timer.just_finished());
                if step == 8 {
                    countdown.reset();
                    timer.reset();
                    assert_eq!(countdown.elapsed(), 0);
                    assert_eq!(countdown.finished(), timer.finished());
                }
            }
        }
    }
}
