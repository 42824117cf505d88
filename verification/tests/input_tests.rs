use phasmoclock::bpm::BpmTracker;
use phasmoclock::config::{Config, KeyScheme};
use phasmoclock::input::{self, AppKey, InputDevice};
use phasmoclock::keymap_win::Key;
use phasmoclock::panel::{BindingAction, Panel};
use phasmoclock::stopwatch::Stopwatch;

#[test]
fn key_actions_follow_bindings() {
    let c = Config::default_for(KeyScheme::Evdev);
    assert_eq!(input::key_action(2, &c), Some(AppKey::Reset));
    assert_eq!(input::key_action(3, &c), Some(AppKey::Tap));
    assert_eq!(input::key_action(4, &c), Some(AppKey::Mult));
    assert_eq!(input::key_action(5, &c), Some(AppKey::Bm));
    assert_eq!(input::key_action(6, &c), None);
}

#[test]
fn first_binding_wins() {
    let mut c = Config::default_for(KeyScheme::WindowsVk);
    c.tap_str = "1".to_string();
    c.refresh_key_codes();
    assert_eq!(c.tap_code, c.reset_code);
    assert_eq!(input::key_action(0x31, &c), Some(AppKey::Reset));
}

#[test]
fn only_presses_trigger() {
    let c = Config::default_for(KeyScheme::Evdev);
    assert_eq!(input::evdev_event_action(true, 1, 2, &c), Some(AppKey::Reset));
    assert_eq!(input::evdev_event_action(true, 0, 2, &c), None);
    assert_eq!(input::evdev_event_action(true, 2, 2, &c), None);
    assert_eq!(input::evdev_event_action(false, 1, 2, &c), None);
}

#[test]
fn windows_keys_trigger() {
    let c = Config::default_for(KeyScheme::WindowsVk);
    assert_eq!(input::windows_key_action(Key::Num1, &c), Some(AppKey::Reset));
    assert_eq!(input::windows_key_action(Key::Num4, &c), Some(AppKey::Bm));
    assert_eq!(input::windows_key_action(Key::KeyA, &c), None);
    assert_eq!(input::windows_key_action(Key::Other, &c), None);
}

fn dev(path: &str, k: bool, a: bool, s: bool) -> InputDevice {
    InputDevice { path: path.to_string(), has_key_events: k, has_key_a: a, has_key_space: s }
}

#[test]
fn detects_first_keyboard() {
    let devices = vec![
        dev("/dev/input/event1", true, false, true),
        dev("/dev/input/event2", false, true, true),
        dev("/dev/input/event3", true, true, true),
        dev("/dev/input/event4", true, true, true),
    ];
    assert_eq!(input::auto_detect_keyboard(&devices), Some("/dev/input/event3".to_string()));
    let mice = vec![dev("/dev/input/event1", true, false, true), dev("/dev/input/event2", false, true, true)];
    assert_eq!(input::auto_detect_keyboard(&mice), None);
    assert_eq!(input::auto_detect_keyboard(&Vec::new()), None);
}

#[test]
fn device_path_choice() {
    assert_eq!(input::device_path("/dev/input/event7", Some("/x".to_string())), "/dev/input/event7");
    assert_eq!(input::device_path("", Some("/dev/input/event3".to_string())), "/dev/input/event3");
    assert_eq!(input::device_path("", None), "/dev/input/event0");
}

#[test]
fn app_keys_act_on_components() {
    let mut sw = Stopwatch::new();
    let mut bpm = BpmTracker::new();
    input::apply_app_key(AppKey::Reset, &mut sw, &mut bpm);
    assert!(sw.is_running);
    input::apply_app_key(AppKey::Mult, &mut sw, &mut bpm);
    assert_eq!(bpm.get_speed_multiplier(), 125);
    input::apply_app_key(AppKey::Bm, &mut sw, &mut bpm);
    assert!(bpm.is_blood_mode());
    input::apply_app_key(AppKey::Tap, &mut sw, &mut bpm);
    assert_eq!(bpm.cadence(), None);
    input::apply_app_key(AppKey::Reset, &mut sw, &mut bpm);
    assert!(!sw.is_running);
}

#[test]
fn rebound_key_triggers_its_action() {
    let mut c = Config::default_for(KeyScheme::WindowsVk);
    let mut p = Panel::new();
    p.begin_binding(BindingAction::BloodMoon);
    assert!(p.capture_key(&mut c, "z".to_string()));
    assert_eq!(input::key_action(0x5A, &c), Some(AppKey::Bm));
    // a binding tried earlier with the same key wins
    p.begin_binding(BindingAction::Tap);
    assert!(p.capture_key(&mut c, "Num1".to_string()));
    assert_eq!(input::key_action(0x31, &c), Some(AppKey::Reset));
}

#[test]
fn frame_handles_keys_in_order_then_ticks() {
    let mut sw = Stopwatch::new();
    let mut bpm = BpmTracker::new();
    let keys = vec![AppKey::Mult, AppKey::Mult, AppKey::Bm, AppKey::Reset, AppKey::Tap];
    input::process_frame(&keys, &mut sw, &mut bpm);
    assert!(sw.is_running);
    assert_eq!(bpm.get_speed_multiplier(), 150);
    assert!(bpm.is_blood_mode());
    assert!(sw.start_time <= sw.current_time);
    input::process_frame(&vec![AppKey::Reset, AppKey::Reset], &mut sw, &mut bpm);
    assert!(sw.is_running);
    input::process_frame(&Vec::new(), &mut sw, &mut bpm);
    assert!(sw.start_time <= sw.current_time);
}

#[test]
fn frame_handles_each_key_once() {
    let mut sw = Stopwatch::new();
    let mut bpm = BpmTracker::new();
    let before = bpm.get_speed_multiplier();
    // five multiplier keys bring the multiplier back; two blood-moon keys
    // toggle it back; three resets leave the stopwatch running
    let keys = vec![
        AppKey::Mult,
        AppKey::Reset,
        AppKey::Mult,
        AppKey::Bm,
        AppKey::Mult,
        AppKey::Reset,
        AppKey::Mult,
        AppKey::Bm,
        AppKey::Mult,
        AppKey::Reset,
    ];
    input::process_frame(&keys, &mut sw, &mut bpm);
    assert_eq!(bpm.get_speed_multiplier(), before);
    assert!(!bpm.is_blood_mode());
    assert!(sw.is_running);
    assert_eq!(bpm.get_offset(), 0);
}
