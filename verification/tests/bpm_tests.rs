use phasmoclock::bpm::BpmTracker;

const SEC: u64 = 1_000_000_000;

#[test]
fn new_tracker() {
    let t = BpmTracker::new();
    assert_eq!(t.get_speed_multiplier(), 100);
    assert!(!t.is_blood_mode());
    assert_eq!(t.get_offset(), 0);
    assert_eq!(t.cadence(), None);
}

#[test]
fn multipliers_cycle_through_five() {
    let mut t = BpmTracker::new();
    let mut seen = Vec::new();
    for _ in 0..5 {
        t.cycle_multiplier();
        seen.push(t.get_speed_multiplier());
    }
    assert_eq!(seen, vec![125, 150, 50, 75, 100]);
}

#[test]
fn blood_moon_toggles_back() {
    let mut t = BpmTracker::new();
    t.toggle_blood_moon();
    assert!(t.is_blood_mode());
    t.toggle_blood_moon();
    assert!(!t.is_blood_mode());
}

#[test]
fn cadence_needs_two_taps_apart() {
    let mut t = BpmTracker::new();
    t.tap_at(10 * SEC);
    assert_eq!(t.cadence(), None);
    t.tap_at(10 * SEC);
    assert_eq!(t.cadence(), None);
    t.tap_at(11 * SEC);
    assert_eq!(t.cadence(), Some((2, SEC)));
}

#[test]
fn window_keeps_last_five_taps() {
    let mut t = BpmTracker::new();
    for i in 0..8u64 {
        t.tap_at(i * SEC / 2);
    }
    // taps at 1.5 s .. 3.5 s remain: four steps over two seconds
    assert_eq!(t.cadence(), Some((4, 2 * SEC)));
}

#[test]
fn tick_changes_nothing() {
    let mut t = BpmTracker::new();
    t.tap_at(0);
    t.tap_at(SEC);
    t.tick();
    assert_eq!(t.cadence(), Some((1, SEC)));
}

#[test]
fn real_clock_taps() {
    let mut t = BpmTracker::new();
    t.tap();
    t.tap();
    match t.cadence() {
        None => {}
        Some((steps, _)) => assert_eq!(steps, 1),
    }
}

#[test]
fn taps_record_the_clock_in_time_order() {
    let mut t = BpmTracker::new();
    t.tap();
    let mut wait = phasmoclock::clock::Clock::start();
    while wait.now_nanos() < 1_000_000 {}
    t.tap();
    match t.cadence() {
        Some((steps, span)) => {
            assert_eq!(steps, 1);
            assert!(span >= 1_000_000);
        }
        None => panic!("two taps a millisecond apart give a cadence"),
    }
}
