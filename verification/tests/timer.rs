use pvz_core::timer::{Countdown, TimerMode};

#[test]
fn one_shot_countdown_runs_out_once() {
    let mut t = Countdown::new(10_000_000_000, TimerMode::Once);
    t.tick(250_000_000);
    assert_eq!(t.elapsed, 250_000_000);
    assert!(!t.finished);
    assert!(!t.just_finished());
    t.tick(500_000_000_000);
    assert_eq!(t.elapsed, 10_000_000_000);
    assert!(t.finished);
    assert!(t.just_finished());
    assert_eq!(t.times_finished_this_tick, 1);
    t.tick(1_000_000_000);
    assert_eq!(t.elapsed, 10_000_000_000);
    assert!(t.finished);
    assert!(!t.just_finished());
}

#[test]
fn repeating_countdown_wraps_around() {
    let mut t = Countdown::new(2_000_000_000, TimerMode::Repeating);
    t.tick(750_000_000);
    assert_eq!(t.elapsed, 750_000_000);
    assert!(!t.just_finished());
    t.tick(1_500_000_000);
    assert_eq!(t.elapsed, 250_000_000);
    assert!(t.finished);
    assert_eq!(t.times_finished_this_tick, 1);
    t.tick(1_000_000_000);
    assert_eq!(t.elapsed, 1_250_000_000);
    assert!(!t.finished);
    assert!(!t.just_finished());
    t.tick(9_000_000_000);
    assert_eq!(t.times_finished_this_tick, 5);
    assert_eq!(t.elapsed, 250_000_000);
}

#[test]
fn zero_length_repeating_countdown_reports_all_ones() {
    let mut t = Countdown::new(0, TimerMode::Repeating);
    t.tick(5);
    assert!(t.finished);
    assert_eq!(t.times_finished_this_tick, u32::MAX);
    assert_eq!(t.elapsed, 0);
}

#[test]
fn tick_reports_the_edge() {
    let mut t = Countdown::new(5, TimerMode::Once);
    assert!(!t.tick_fired(4));
    assert!(t.tick_fired(1));
    assert!(!t.tick_fired(1));
    let mut r = Countdown::new(5, TimerMode::Repeating);
    assert!(r.tick_fired(5));
    assert_eq!(r.elapsed, 0);
    assert!(!r.tick_fired(4));
    assert!(r.tick_fired(1));
    r.set_elapsed(3);
    assert_eq!(r.elapsed, 3);
    assert!(r.finished);
    // sums beyond the largest value of the clock are still counted rightly
    let mut big = Countdown::new(u64::MAX, TimerMode::Repeating);
    big.set_elapsed(u64::MAX - 1);
    assert!(big.tick_fired(u64::MAX));
    assert_eq!(big.times_finished_this_tick, 1);
    assert_eq!(big.elapsed, u64::MAX - 1);
}
