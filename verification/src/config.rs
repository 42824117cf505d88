//! The key-binding configuration: the binding names as the user wrote them,
//! the key codes they stand for in the active key scheme, the display toggles,
//! the font and the keyboard device.

use crate::keymap_linux;
use crate::keymap_win;
use crate::text::to_owned_string;
use vstd::prelude::*;

verus! {

/// Which key table binding names are read with: evdev key codes (Linux) or
/// Windows virtual-key codes.
#[derive(Clone, Copy, Debug, PartialEq, Eq, Structural)]
pub enum KeyScheme {
    Evdev,
    WindowsVk,
}

/// The key code a binding name stands for in a scheme.
pub open spec fn scheme_parse(scheme: KeyScheme, key_str: Seq<char>) -> u16 {
    match scheme {
        KeyScheme::Evdev => keymap_linux::parse_key_spec(key_str),
        KeyScheme::WindowsVk => keymap_win::parse_key_spec(key_str),
    }
}

/// The name shown for a key code in a scheme.
pub open spec fn scheme_label(scheme: KeyScheme, code: u16) -> Seq<char> {
    match scheme {
        KeyScheme::Evdev => keymap_linux::kbd_key_label(code),
        KeyScheme::WindowsVk => keymap_win::vk_name(code),
    }
}

impl KeyScheme {
    /// The key code a binding name stands for in this scheme.
    pub fn parse_key(&self, key_str: &str) -> (code: u16)
        ensures
            code == scheme_parse(*self, key_str@),
    {
        match self {
            KeyScheme::Evdev => keymap_linux::parse_key(key_str),
            KeyScheme::WindowsVk => keymap_win::parse_key(key_str),
        }
    }

    /// The name shown for a key code in this scheme.
    pub fn key_code_to_str(&self, code: u16) -> (s: String)
        ensures
            s@ == scheme_label(*self, code),
    {
        match self {
            KeyScheme::Evdev => keymap_linux::key_code_to_str(code),
            KeyScheme::WindowsVk => keymap_win::key_code_to_str(code),
        }
    }
}

/// The keyboard device used when none is configured: the empty path, which
/// asks for auto-detection.
pub fn default_keyboard_device() -> (s: String)
    ensures
        s@ == Seq::<char>::empty(),
{
    String::new()
}

/// The name of the default timer font.
pub fn default_font_str() -> (s: String)
    ensures
        s@ == "Digital-7 Mono"@,
{
    to_owned_string("Digital-7 Mono")
}

/// The default binding name of the reset key.
pub fn default_reset_str() -> (s: String)
    ensures
        s@ == "1"@,
{
    to_owned_string("1")
}

/// The default binding name of the tap key.
pub fn default_tap_str() -> (s: String)
    ensures
        s@ == "2"@,
{
    to_owned_string("2")
}

/// The default binding name of the multiplier key.
pub fn default_cycle_multiplier_str() -> (s: String)
    ensures
        s@ == "3"@,
{
    to_owned_string("3")
}

/// The default binding name of the blood-moon key.
pub fn default_blood_moon_str() -> (s: String)
    ensures
        s@ == "4"@,
{
    to_owned_string("4")
}

pub struct Config {
    pub reset_str: String,
    pub tap_str: String,
    pub cycle_multiplier_str: String,
    pub blood_moon_str: String,
    pub reset_code: u16,
    pub tap_code: u16,
    pub cycle_multiplier_code: u16,
    pub blood_moon_code: u16,
    pub hide_speeds: bool,
    pub hide_tap: bool,
    pub font: String,
    pub keyboard_device: String,
    /// The key table the binding names are read with.
    pub scheme: KeyScheme,
}

/// Every key code is the one its binding name stands for.
pub open spec fn codes_match_names(c: Config) -> bool {
    &&& c.reset_code == scheme_parse(c.scheme, c.reset_str@)
    &&& c.tap_code == scheme_parse(c.scheme, c.tap_str@)
    &&& c.cycle_multiplier_code == scheme_parse(c.scheme, c.cycle_multiplier_str@)
    &&& c.blood_moon_code == scheme_parse(c.scheme, c.blood_moon_str@)
}

/// `next` is `c` with its key codes read anew from its binding names.
pub open spec fn refreshed(c: Config, next: Config) -> bool {
    &&& codes_match_names(next)
    &&& next.reset_str == c.reset_str
    &&& next.tap_str == c.tap_str
    &&& next.cycle_multiplier_str == c.cycle_multiplier_str
    &&& next.blood_moon_str == c.blood_moon_str
    &&& next.hide_speeds == c.hide_speeds
    &&& next.hide_tap == c.hide_tap
    &&& next.font == c.font
    &&& next.keyboard_device == c.keyboard_device
    &&& next.scheme == c.scheme
}

impl Config {
    /// The default configuration for a key scheme: the keys named `1` to `4`
    /// for reset, tap, multiplier and blood moon, each stored under the name
    /// the scheme shows for its code; nothing hidden; the default font; no
    /// keyboard device (auto-detect).
    pub fn default_for(scheme: KeyScheme) -> (c: Config)
        ensures
            c.scheme == scheme,
            c.reset_code == scheme_parse(scheme, "1"@),
            c.tap_code == scheme_parse(scheme, "2"@),
            c.cycle_multiplier_code == scheme_parse(scheme, "3"@),
            c.blood_moon_code == scheme_parse(scheme, "4"@),
            c.reset_str@ == scheme_label(scheme, c.reset_code),
            c.tap_str@ == scheme_label(scheme, c.tap_code),
            c.cycle_multiplier_str@ == scheme_label(scheme, c.cycle_multiplier_code),
            c.blood_moon_str@ == scheme_label(scheme, c.blood_moon_code),
            !c.hide_speeds,
            !c.hide_tap,
            c.font@ == "Digital-7 Mono"@,
            c.keyboard_device@ == Seq::<char>::empty(),
            scheme == KeyScheme::WindowsVk ==> codes_match_names(c),
    {
        let reset_code: u16 = scheme.parse_key("1");
        let tap_code: u16 = scheme.parse_key("2");
        let cycle_multiplier_code: u16 = scheme.parse_key("3");
        let blood_moon_code: u16 = scheme.parse_key("4");
        let c = Config {
            reset_str: scheme.key_code_to_str(reset_code),
            tap_str: scheme.key_code_to_str(tap_code),
            cycle_multiplier_str: scheme.key_code_to_str(cycle_multiplier_code),
            blood_moon_str: scheme.key_code_to_str(blood_moon_code),
            reset_code,
            tap_code,
            cycle_multiplier_code,
            blood_moon_code,
            hide_speeds: false,
            hide_tap: false,
            font: to_owned_string("Digital-7 Mono"),
            keyboard_device: String::new(),
            scheme,
        };
        proof {
            if scheme == KeyScheme::WindowsVk {
                keymap_win::lemma_parse_is_stable("1"@);
                keymap_win::lemma_parse_is_stable("2"@);
                keymap_win::lemma_parse_is_stable("3"@);
                keymap_win::lemma_parse_is_stable("4"@);
            }
        }
        c
    }

    pub fn get_hide_speeds(&self) -> (b: bool)
        ensures
            b == self.hide_speeds,
    {
        self.hide_speeds
    }

    pub fn get_hide_tap(&self) -> (b: bool)
        ensures
            b == self.hide_tap,
    {
        self.hide_tap
    }

    /// Reads every key code anew from its binding name: what saving and
    /// loading a configuration compute before the file is written or after it
    /// is read.
    pub fn refresh_key_codes(&mut self)
        ensures
            refreshed(*old(self), *final(self)),
            codes_match_names(*old(self)) ==> *final(self) == *old(self),
    {
        self.reset_code = self.scheme.parse_key(self.reset_str.as_str());
        self.tap_code = self.scheme.parse_key(self.tap_str.as_str());
        self.cycle_multiplier_code = self.scheme.parse_key(self.cycle_multiplier_str.as_str());
        self.blood_moon_code = self.scheme.parse_key(self.blood_moon_str.as_str());
    }

    /// Shows or hides the speed readout, and reads the key codes anew as
    /// saving does.
    pub fn toggle_hide_speeds(&mut self)
        ensures
            final(self).hide_speeds == !old(self).hide_speeds,
            refreshed(
                Config { hide_speeds: !old(self).hide_speeds, ..*old(self) },
                *final(self),
            ),
    {
        self.hide_speeds = !self.hide_speeds;
        self.refresh_key_codes();
    }

    /// Shows or hides the tap readout.
    pub fn toggle_hide_tap(&mut self)
        ensures
            *final(self) == (Config { hide_tap: !old(self).hide_tap, ..*old(self) }),
    {
        self.hide_tap = !self.hide_tap;
    }
}

} // verus!
