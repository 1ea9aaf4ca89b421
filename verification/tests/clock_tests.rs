use snake_game::clock::{timer, wake_time, STEP_TIME};

#[test]
fn step_time_is_eighty_milliseconds() {
    assert_eq!(STEP_TIME, 80_000_000);
}

#[test]
fn timer_ticks_when_step_has_passed() {
    assert_eq!(timer(0, 80_000_000), (80_000_000, true));
    assert_eq!(timer(1_000, 80_001_000), (80_001_000, true));
    assert_eq!(timer(5, 1_000_000_000), (1_000_000_000, true));
}

#[test]
fn timer_waits_before_step_has_passed() {
    assert_eq!(timer(0, 79_999_999), (0, false));
    assert_eq!(timer(1_000, 1_000), (1_000, false));
    assert_eq!(timer(1_000, 80_000_999), (1_000, false));
}

#[test]
fn timer_with_clock_behind_last_tick_waits() {
    assert_eq!(timer(100, 50), (100, false));
    assert_eq!(timer(u64::MAX, 0), (u64::MAX, false));
}

#[test]
fn timer_gives_one_tick_after_long_stall() {
    let (stamp, ticked) = timer(0, 10 * STEP_TIME);
    assert!(ticked);
    assert_eq!(stamp, 10 * STEP_TIME);
    assert_eq!(timer(stamp, stamp), (stamp, false));
    assert_eq!(timer(stamp, stamp + STEP_TIME - 1), (stamp, false));
    assert_eq!(timer(stamp, stamp + STEP_TIME), (stamp + STEP_TIME, true));
}

#[test]
fn ticks_are_at_least_a_step_apart() {
    let mut last = 0u64;
    let mut ticks = Vec::new();
    let mut polls = 0;
    let mut now = 0u64;
    while now < 1_000_000_000 {
        let (stamp, ticked) = timer(last, now);
        polls += 1;
        if ticked {
            ticks.push(now);
        }
        last = stamp;
        now += 30_000_000;
    }
    assert!(ticks.len() <= polls);
    assert_eq!(ticks[0], 90_000_000);
    for pair in ticks.windows(2) {
        assert!(pair[1] - pair[0] >= STEP_TIME);
    }
}

#[test]
fn wake_time_is_one_step_after_last_tick() {
    assert_eq!(wake_time(0), 80_000_000);
    assert_eq!(wake_time(123), 80_000_123);
    assert_eq!(timer(123, wake_time(123)), (80_000_123, true));
    assert_eq!(wake_time(u64::MAX), u64::MAX);
    assert_eq!(wake_time(u64::MAX - STEP_TIME), u64::MAX);
    assert_eq!(wake_time(u64::MAX - STEP_TIME - 1), u64::MAX - 1);
}
