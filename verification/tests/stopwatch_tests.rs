use phasmoclock::clock::next_reading;
use phasmoclock::stopwatch::Stopwatch;

const SEC: u64 = 1_000_000_000;

#[test]
fn new_stopwatch_is_stopped_and_zeroed() {
    let sw = Stopwatch::new();
    assert!(!sw.is_running);
    assert_eq!(sw.seconds, 0);
    assert_eq!(sw.milliseconds, 0);
    assert_eq!((sw.hour, sw.minute, sw.second), (0, 0, 0));
    assert_eq!((sw.last_seconds, sw.last_milliseconds), (0, 0));
}

#[test]
fn reset_starts_and_display_lags_one_tick() {
    let mut sw = Stopwatch::new();
    sw.reset_at(1_000);
    assert!(sw.is_running);
    assert_eq!((sw.start_time, sw.current_time), (1_000, 1_000));
    sw.tick_at(1_000 + 5 * SEC + 250_000_000);
    // the first tick shows the span up to the previous reading
    assert_eq!(sw.seconds, 0);
    sw.tick_at(1_000 + 6 * SEC);
    assert_eq!(sw.seconds, 5);
    assert_eq!(sw.milliseconds, 250);
    assert_eq!(sw.second, 5);
}

#[test]
fn stopping_keeps_last_time() {
    let mut sw = Stopwatch::new();
    sw.reset_at(0);
    sw.tick_at(3 * SEC + 456_000_000);
    sw.tick_at(4 * SEC);
    assert_eq!((sw.seconds, sw.milliseconds), (3, 456));
    sw.reset_at(5 * SEC);
    assert!(!sw.is_running);
    assert_eq!((sw.last_seconds, sw.last_milliseconds), (3, 456));
    assert_eq!((sw.seconds, sw.milliseconds), (0, 0));
    // starting again keeps the last time
    sw.reset_at(6 * SEC);
    assert!(sw.is_running);
    assert_eq!((sw.last_seconds, sw.last_milliseconds), (3, 456));
}

#[test]
fn clock_face_of_long_run() {
    let mut sw = Stopwatch::new();
    sw.reset_at(0);
    let t = 3 * 3600 + 25 * 60 + 7; // 3:25:07
    sw.tick_at(t * SEC + 999_999_999);
    sw.tick_at(t * SEC + SEC);
    assert_eq!(sw.seconds, t);
    assert_eq!(sw.milliseconds, 999);
    assert_eq!((sw.hour, sw.minute, sw.second), (3, 25, 7));
}

#[test]
fn seconds_hand_wraps_at_sixteen_bits() {
    let mut sw = Stopwatch::new();
    sw.reset_at(0);
    sw.tick_at(65_536 * SEC);
    sw.tick_at(65_537 * SEC);
    assert_eq!(sw.seconds, 65_536);
    // the seconds hand truncates to 16 bits first: 65536 -> 0
    assert_eq!(sw.second, 0);
    assert_eq!(sw.minute, ((65_536u64 / 60) % 60) as u16);
    assert_eq!(sw.hour, 18);
}

#[test]
fn paused_ticks_move_start_forward() {
    let mut sw = Stopwatch::new();
    sw.reset_at(10);
    sw.reset_at(20); // stopped again at 20
    assert!(!sw.is_running);
    sw.tick_at(20 + 7 * SEC);
    assert_eq!(sw.start_time, 20 + 7 * SEC);
    assert_eq!(sw.current_time, 20 + 7 * SEC);
    assert_eq!(sw.seconds, 0);
}

#[test]
fn paused_tick_with_earlier_reading_keeps_start() {
    let mut sw = Stopwatch::new();
    sw.reset_at(100);
    sw.reset_at(100);
    sw.tick_at(50);
    assert_eq!(sw.start_time, 100);
    assert_eq!(sw.current_time, 50);
}

#[test]
fn running_tick_with_start_after_current_shows_zero() {
    let mut sw = Stopwatch::new();
    sw.reset_at(100);
    sw.tick_at(40); // current goes back to 40
    sw.tick_at(500);
    assert_eq!(sw.seconds, 0);
    assert_eq!(sw.milliseconds, 0);
}

#[test]
fn real_clock_runs() {
    let mut sw = Stopwatch::new();
    sw.reset();
    assert!(sw.is_running);
    sw.tick();
    sw.tick();
    assert!(sw.second < 60);
    sw.reset();
    assert!(!sw.is_running);
}

#[test]
fn clock_readings_stay_ordered() {
    let mut sw = Stopwatch::new();
    assert!(sw.start_time <= sw.current_time);
    sw.reset();
    let mut shown = 0u64;
    for _ in 0..5 {
        sw.tick();
        assert!(sw.start_time <= sw.current_time);
        let now = sw.seconds * 1000 + sw.milliseconds as u64;
        assert!(now >= shown);
        shown = now;
    }
}

#[test]
fn clock_never_goes_back() {
    let mut clock = phasmoclock::clock::Clock::start();
    let a = clock.now_nanos();
    let b = clock.now_nanos();
    assert!(a <= b);
    assert_eq!(phasmoclock::clock::saturating_nanos(7), 7);
    assert_eq!(phasmoclock::clock::saturating_nanos(u128::MAX), u64::MAX);
}

#[test]
fn next_reading_saturates_and_never_goes_back() {
    assert_eq!(next_reading(5, 3), 5);
    assert_eq!(next_reading(5, 7), 7);
    assert_eq!(next_reading(0, 0), 0);
    assert_eq!(next_reading(0, u128::MAX), u64::MAX);
    assert_eq!(next_reading(u64::MAX, u128::MAX), u64::MAX);
    assert_eq!(next_reading(10, 1u128 << 70), u64::MAX);
}

#[test]
fn two_running_ticks_never_show_less() {
    let mut sw = Stopwatch::new();
    sw.reset_at(100);
    sw.tick_at(100 + 2 * SEC + 300_000_000);
    let first = sw.seconds * 1000 + sw.milliseconds as u64;
    sw.tick_at(100 + 2 * SEC + 300_000_000);
    let second = sw.seconds * 1000 + sw.milliseconds as u64;
    assert!(second >= first);
    assert_eq!(second, 2300);
    assert_eq!(sw.start_time, 100);
}
