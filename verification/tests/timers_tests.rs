use chip8::cpu::timers::{millis, TimerSubsystem, TIMER_RATE};
use std::time::{Duration, Instant};

fn wait(duration: Duration) {
    let start = Instant::now();
    while start.elapsed() < duration {
        std::hint::spin_loop();
    }
}

#[test]
fn test_timer_subsystem() {
    let mut timers = TimerSubsystem::new();
    timers.delay = 200;
    timers.sound = 200;

    wait(Duration::from_millis(100));
    timers.cycle();

    assert!(timers.delay < 200);
    assert!(timers.sound < 200);
}

#[test]
fn timer_rate_is_a_sixtieth_of_a_second() {
    assert_eq!(TIMER_RATE, 16);
}

#[test]
fn new_timers_are_zero() {
    let timers = TimerSubsystem::new();
    assert_eq!(timers.delay, 0);
    assert_eq!(timers.sound, 0);
    assert_eq!(timers.accumulator, 0);
}

#[test]
fn cycle_counts_by_real_time() {
    let mut timers = TimerSubsystem::new();
    timers.delay = 200;
    timers.sound = 3;
    wait(Duration::from_millis(100));
    timers.cycle();
    // 100 ms are six ticks; allow for a slow machine, but not for no clock
    assert!(timers.delay <= 194);
    assert!(timers.delay >= 100);
    assert_eq!(timers.sound, 0);
    assert!(timers.accumulator < 16);
}

#[test]
fn cycle_measures_from_the_last_cycle() {
    let mut timers = TimerSubsystem::new();
    wait(Duration::from_millis(50));
    timers.cycle();
    timers.delay = 255;
    timers.cycle();
    // the 50 ms before the first cycle are not counted again
    assert!(timers.delay >= 253);
}

#[test]
fn advance_one_second() {
    let mut timers = TimerSubsystem::new();
    timers.delay = 200;
    timers.sound = 50;
    timers.advance(1000);
    // 1000 / 16 = 62 ticks, 8 ms left over
    assert_eq!(timers.delay, 138);
    assert_eq!(timers.sound, 0);
    assert_eq!(timers.accumulator, 8);
}

#[test]
fn advance_keeps_the_remainder() {
    let mut timers = TimerSubsystem::new();
    timers.delay = 10;
    timers.advance(15);
    assert_eq!(timers.delay, 10);
    assert_eq!(timers.accumulator, 15);
    timers.advance(1);
    assert_eq!(timers.delay, 9);
    assert_eq!(timers.accumulator, 0);
    timers.advance(8);
    timers.advance(8);
    assert_eq!(timers.delay, 8);
    assert_eq!(timers.accumulator, 0);
    timers.advance(0);
    assert_eq!(timers.delay, 8);
}

#[test]
fn advance_stops_at_zero() {
    let mut timers = TimerSubsystem::new();
    timers.delay = 2;
    timers.sound = 1;
    timers.advance(16 * 5 + 3);
    assert_eq!(timers.delay, 0);
    assert_eq!(timers.sound, 0);
    assert_eq!(timers.accumulator, 3);
}

#[test]
fn advance_by_the_longest_time() {
    let mut timers = TimerSubsystem::new();
    timers.delay = 255;
    timers.sound = 255;
    timers.advance(7);
    timers.advance(u64::MAX);
    assert_eq!(timers.delay, 0);
    assert_eq!(timers.sound, 0);
    // (7 + 2^64 - 1) mod 16
    assert_eq!(timers.accumulator, 6);
}

#[test]
fn advance_with_timers_at_zero_keeps_time() {
    let mut timers = TimerSubsystem::new();
    timers.advance(100);
    assert_eq!(timers.delay, 0);
    assert_eq!(timers.sound, 0);
    assert_eq!(timers.accumulator, 4);
}

#[test]
fn millis_of_seconds_and_nanoseconds() {
    assert_eq!(millis(0, 0), 0);
    assert_eq!(millis(0, 999_999), 0);
    assert_eq!(millis(0, 1_000_000), 1);
    assert_eq!(millis(2, 345_678_901), 2345);
    assert_eq!(millis(1, 999_999_999), 1999);
}

#[test]
fn millis_saturate() {
    assert_eq!(millis(u64::MAX / 1000, 0), u64::MAX / 1000 * 1000);
    assert_eq!(millis(u64::MAX / 1000, 615_000_000), u64::MAX);
    assert_eq!(millis(u64::MAX / 1000, 616_000_000), u64::MAX);
    assert_eq!(millis(u64::MAX / 1000 + 1, 0), u64::MAX);
    assert_eq!(millis(u64::MAX, u32::MAX), u64::MAX);
}
