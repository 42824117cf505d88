use phasmoclock::keymap_linux;
use phasmoclock::keymap_win::{self, Key};

#[test]
fn windows_codes_of_keys() {
    assert_eq!(keymap_win::rdev_to_win_vk(Key::KeyA), 0x41);
    assert_eq!(keymap_win::rdev_to_win_vk(Key::KeyZ), 0x5A);
    assert_eq!(keymap_win::rdev_to_win_vk(Key::Num7), 0x37);
    assert_eq!(keymap_win::rdev_to_win_vk(Key::Space), 0x20);
    assert_eq!(keymap_win::rdev_to_win_vk(Key::Escape), 0x1B);
    assert_eq!(keymap_win::rdev_to_win_vk(Key::Return), 0x0D);
    assert_eq!(keymap_win::rdev_to_win_vk(Key::Backspace), 0x08);
    assert_eq!(keymap_win::rdev_to_win_vk(Key::Tab), 0x09);
    assert_eq!(keymap_win::rdev_to_win_vk(Key::BackQuote), 0xC0);
    assert_eq!(keymap_win::rdev_to_win_vk(Key::F5), 0);
    assert_eq!(keymap_win::rdev_to_win_vk(Key::Unknown(77)), 0);
    assert_eq!(keymap_win::rdev_to_win_vk(Key::Other), 0);
}

#[test]
fn windows_parse_key_names() {
    assert_eq!(keymap_win::parse_key("q"), 0x51);
    assert_eq!(keymap_win::parse_key("Q"), 0x51);
    assert_eq!(keymap_win::parse_key("SPACE"), 0x20);
    assert_eq!(keymap_win::parse_key("esc"), 0x1B);
    assert_eq!(keymap_win::parse_key("Escape"), 0x1B);
    assert_eq!(keymap_win::parse_key("return"), 0x0D);
    assert_eq!(keymap_win::parse_key("Enter"), 0x0D);
    assert_eq!(keymap_win::parse_key("`"), 0xC0);
    assert_eq!(keymap_win::parse_key("Backtick"), 0xC0);
    assert_eq!(keymap_win::parse_key("1"), 0x31);
    assert_eq!(keymap_win::parse_key("Num9"), 0x39);
    // function keys have no virtual-key code in the table
    assert_eq!(keymap_win::parse_key("F1"), 0);
    assert_eq!(keymap_win::parse_key("nothing"), 0);
    assert_eq!(keymap_win::parse_key(""), 0);
    // the Kelvin sign lowercases to an ASCII k
    assert_eq!(keymap_win::parse_key("\u{212A}"), 0x4B);
}

#[test]
fn windows_names_of_codes() {
    assert_eq!(keymap_win::key_code_to_str(0x41), "A");
    assert_eq!(keymap_win::key_code_to_str(0x30), "Num0");
    assert_eq!(keymap_win::key_code_to_str(0x7B), "F12");
    assert_eq!(keymap_win::key_code_to_str(0x0D), "Enter");
    assert_eq!(keymap_win::key_code_to_str(0xC0), "Backtick");
    assert_eq!(keymap_win::key_code_to_str(0x00), "Unknown");
    assert_eq!(keymap_win::key_code_to_str(0xFFFF), "Unknown");
}

#[test]
fn windows_shown_names_parse_back() {
    let codes: Vec<u16> = (0x41..=0x5A)
        .chain(0x30..=0x39)
        .chain([0x20, 0x1B, 0x0D, 0x08, 0x09, 0xC0])
        .collect();
    for code in codes {
        let name = keymap_win::key_code_to_str(code);
        assert_eq!(keymap_win::parse_key(&name), code, "{}", name);
    }
    // a function key's name does not parse back
    assert_eq!(keymap_win::parse_key(&keymap_win::key_code_to_str(0x70)), 0);
}

#[test]
fn windows_parse_is_stable() {
    for s in ["x", "Tab", "9", "num3", "f4", "???", "backspace"] {
        let code = keymap_win::parse_key(s);
        assert_eq!(keymap_win::parse_key(&keymap_win::key_code_to_str(code)), code);
    }
}

#[test]
fn linux_parse_key_names() {
    assert_eq!(keymap_linux::parse_key("q"), 16);
    assert_eq!(keymap_linux::parse_key("A"), 30);
    assert_eq!(keymap_linux::parse_key("1"), 2);
    assert_eq!(keymap_linux::parse_key("num1"), 2);
    assert_eq!(keymap_linux::parse_key("Space"), 57);
    assert_eq!(keymap_linux::parse_key("ESC"), 1);
    assert_eq!(keymap_linux::parse_key("`"), 41);
    assert_eq!(keymap_linux::parse_key("return"), 28);
    // the pipe is read as the P key
    assert_eq!(keymap_linux::parse_key("|"), 25);
    assert_eq!(keymap_linux::parse_key("pipe"), 25);
    assert_eq!(keymap_linux::parse_key("unheard-of"), 240);
}

#[test]
fn linux_evdev_names() {
    assert_eq!(keymap_linux::evdev_name("backslash"), "KEY_BACKSLASH");
    assert_eq!(keymap_linux::evdev_name("\\"), "KEY_BACKSLASH");
    assert_eq!(keymap_linux::evdev_name("pagedown"), "KEY_PAGEDOWN");
    assert_eq!(keymap_linux::evdev_name("F12"), "KEY_UNKNOWN");
    assert_eq!(keymap_linux::evdev_name("f12"), "KEY_F12");
}

#[test]
fn linux_labels_of_codes() {
    assert_eq!(keymap_linux::key_code_to_str(16), "Q");
    assert_eq!(keymap_linux::key_code_to_str(2), "1");
    assert_eq!(keymap_linux::key_code_to_str(57), "Space");
    // the label parses back to the same code for these keys
    for name in ["q", "1", "space"] {
        let code = keymap_linux::parse_key(name);
        assert_eq!(keymap_linux::parse_key(&keymap_linux::key_code_to_str(code)), code);
    }
}

#[test]
fn linux_letters_are_distinct_and_case_blind() {
    let mut codes: Vec<u16> = Vec::new();
    for c in 'a'..='z' {
        let lower = keymap_linux::parse_key(&c.to_string());
        let upper = keymap_linux::parse_key(&c.to_ascii_uppercase().to_string());
        assert_eq!(lower, upper);
        assert_ne!(lower, 240);
        assert!(!codes.contains(&lower));
        codes.push(lower);
    }
    assert_eq!(keymap_linux::parse_key("F5"), 63);
    assert_eq!(keymap_linux::parse_key("Space"), keymap_linux::parse_key("SPACE"));
}
