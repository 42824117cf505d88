use phasmoclock::assets::merge_listings;
use phasmoclock::config::{Config, KeyScheme};
use phasmoclock::panel::{self, BindingAction, Panel};

#[test]
fn settings_toggle_and_rebinding() {
    let mut p = Panel::new();
    assert!(!p.show_settings);
    assert!(p.toggle_settings());
    p.begin_binding(BindingAction::Tap);
    assert_eq!(p.binding_state, Some(BindingAction::Tap));
    assert!(!p.toggle_settings());
    assert_eq!(p.binding_state, None);
    p.toggle_settings();
    p.begin_binding(BindingAction::Reset);
    p.close_settings();
    assert!(!p.show_settings);
    assert_eq!(p.binding_state, None);
}

#[test]
fn captured_key_rebinds() {
    let mut p = Panel::new();
    let mut c = Config::default_for(KeyScheme::WindowsVk);
    assert!(!p.capture_key(&mut c, "x".to_string()));
    assert_eq!(c.reset_str, "Num1");
    p.begin_binding(BindingAction::BloodMoon);
    assert!(p.capture_key(&mut c, "z".to_string()));
    assert_eq!(c.blood_moon_str, "z");
    assert_eq!(c.blood_moon_code, 0x5A);
    assert_eq!(p.binding_state, None);
    p.begin_binding(BindingAction::CycleMultipliers);
    assert!(p.capture_key(&mut c, "space".to_string()));
    assert_eq!(c.cycle_multiplier_code, 0x20);
}

#[test]
fn button_text() {
    let mut p = Panel::new();
    assert_eq!(p.binding_button_text(BindingAction::Tap, "Num2"), "[ Num2 ]");
    p.begin_binding(BindingAction::Tap);
    assert_eq!(p.binding_button_text(BindingAction::Tap, "Num2"), "Press any key...");
    assert_eq!(p.binding_button_text(BindingAction::Reset, "Num1"), "[ Num1 ]");
}

#[test]
fn colors() {
    assert_eq!(panel::timer_color(0), 0x00ff00);
    assert_eq!(panel::timer_color(59), 0x00ff00);
    assert_eq!(panel::timer_color(60), 0xff0000);
    assert_eq!(panel::timer_color(89), 0xff0000);
    assert_eq!(panel::timer_color(90), 0x00ffff);
    assert_eq!(panel::timer_color(179), 0x00ffff);
    assert_eq!(panel::timer_color(180), 0x00ff00);
    assert_eq!(panel::blood_moon_color(true), 0xff0000);
    assert_eq!(panel::blood_moon_color(false), 0x666666);
}

#[test]
fn device_labels() {
    assert_eq!(panel::device_from_label("Auto-detect"), Some(String::new()));
    assert_eq!(
        panel::device_from_label("AT Keyboard (/dev/input/event3)"),
        Some("/dev/input/event3".to_string())
    );
    assert_eq!(panel::device_from_label("Pad (x) (/dev/input/event9)"), Some("/dev/input/event9".to_string()));
    assert_eq!(panel::device_from_label("no path"), None);
    assert_eq!(panel::device_from_label("half (open"), None);
    assert_eq!(panel::rfind_char("a(b(c", '('), Some(3));
    assert_eq!(panel::rfind_char("abc", '('), None);
}

#[test]
fn device_label_selection() {
    let labels: Vec<String> = vec![
        "Auto-detect".to_string(),
        "Mouse (/dev/input/event1)".to_string(),
        "Keyboard (/dev/input/event3)".to_string(),
    ];
    assert_eq!(panel::selected_device_index(&labels, ""), Some(0));
    assert_eq!(panel::selected_device_index(&labels, "/dev/input/event3"), Some(2));
    assert_eq!(panel::selected_device_index(&labels, "/dev/input/event9"), None);
    assert!(panel::label_matches_device("K (/a)", "/a"));
    assert!(!panel::label_matches_device("K (/a)", "a)"));
    assert!(!panel::label_matches_device("(/a", "/a"));
}

#[test]
fn font_choices_put_timer_font_first() {
    let fonts = vec!["Zeta".to_string(), "Digital-7 Mono".to_string(), "Arial".to_string(), "Mono".to_string()];
    let c = panel::font_choices(fonts);
    assert_eq!(c, vec!["Digital-7 Mono", "Arial", "Mono", "Zeta"]);
    let c2 = panel::font_choices(vec!["b".to_string(), "a".to_string()]);
    assert_eq!(c2, vec!["Digital-7 Mono", "a", "b"]);
    assert_eq!(panel::position_of(&c2, "b"), Some(2));
    assert_eq!(panel::position_of(&c2, "c"), None);
}

#[test]
fn listings_merge() {
    assert_eq!(merge_listings(Some(vec![1, 2]), Some(vec![3])), vec![1, 2, 3]);
    assert_eq!(merge_listings(Some(vec![1, 2]), None), vec![1, 2]);
    assert_eq!(merge_listings::<i32>(None, Some(vec![3])), Vec::<i32>::new());
}

#[test]
fn device_label_reads_back() {
    let label = panel::device_label("AT Keyboard", "/dev/input/event3");
    assert_eq!(label, "AT Keyboard (/dev/input/event3)");
    assert_eq!(panel::device_from_label(&label), Some("/dev/input/event3".to_string()));
    assert!(panel::label_matches_device(&label, "/dev/input/event3"));
    let odd = panel::device_label("Pad (USB)", "/dev/input/event9");
    assert_eq!(panel::device_from_label(&odd), Some("/dev/input/event9".to_string()));
}
