use phasmoclock::config::{self, Config, KeyScheme};

#[test]
fn default_strings() {
    assert_eq!(config::default_keyboard_device(), "");
    assert_eq!(config::default_font_str(), "Digital-7 Mono");
    assert_eq!(config::default_reset_str(), "1");
    assert_eq!(config::default_tap_str(), "2");
    assert_eq!(config::default_cycle_multiplier_str(), "3");
    assert_eq!(config::default_blood_moon_str(), "4");
}

#[test]
fn windows_default_config() {
    let c = Config::default_for(KeyScheme::WindowsVk);
    assert_eq!(
        (c.reset_code, c.tap_code, c.cycle_multiplier_code, c.blood_moon_code),
        (0x31, 0x32, 0x33, 0x34)
    );
    assert_eq!(c.reset_str, "Num1");
    assert_eq!(c.tap_str, "Num2");
    assert_eq!(c.cycle_multiplier_str, "Num3");
    assert_eq!(c.blood_moon_str, "Num4");
    assert!(!c.get_hide_speeds());
    assert!(!c.get_hide_tap());
    assert_eq!(c.font, "Digital-7 Mono");
    assert_eq!(c.keyboard_device, "");
}

#[test]
fn linux_default_config() {
    let c = Config::default_for(KeyScheme::Evdev);
    assert_eq!(
        (c.reset_code, c.tap_code, c.cycle_multiplier_code, c.blood_moon_code),
        (2, 3, 4, 5)
    );
    assert_eq!(c.reset_str, "1");
    assert_eq!(c.blood_moon_str, "4");
}

#[test]
fn saving_default_keeps_codes() {
    for scheme in [KeyScheme::WindowsVk, KeyScheme::Evdev] {
        let mut c = Config::default_for(scheme);
        let before = (c.reset_code, c.tap_code, c.cycle_multiplier_code, c.blood_moon_code);
        c.refresh_key_codes();
        let after = (c.reset_code, c.tap_code, c.cycle_multiplier_code, c.blood_moon_code);
        assert_eq!(before, after);
    }
}

#[test]
fn refresh_reads_codes_from_names() {
    let mut c = Config::default_for(KeyScheme::WindowsVk);
    c.tap_str = "space".to_string();
    c.blood_moon_str = "nonsense".to_string();
    c.refresh_key_codes();
    assert_eq!(c.tap_code, 0x20);
    assert_eq!(c.blood_moon_code, 0);
    assert_eq!(c.reset_code, 0x31);
}

#[test]
fn toggles() {
    let mut c = Config::default_for(KeyScheme::WindowsVk);
    c.reset_str = "r".to_string();
    c.toggle_hide_speeds();
    assert!(c.get_hide_speeds());
    // toggling the speed readout saves, which reads the codes anew
    assert_eq!(c.reset_code, 0x52);
    c.toggle_hide_speeds();
    assert!(!c.get_hide_speeds());
    c.toggle_hide_tap();
    assert!(c.get_hide_tap());
    c.toggle_hide_tap();
    assert!(!c.get_hide_tap());
}

#[test]
fn scheme_dispatch() {
    assert_eq!(KeyScheme::WindowsVk.parse_key("a"), 0x41);
    assert_eq!(KeyScheme::Evdev.parse_key("a"), 30);
    assert_eq!(KeyScheme::WindowsVk.key_code_to_str(0x41), "A");
    assert_eq!(KeyScheme::Evdev.key_code_to_str(30), "A");
}
