//! The Windows key tables: the keys that the global keyboard hook reports,
//! their virtual-key codes, the names a binding may be written with, and the
//! name shown for a virtual-key code.

use crate::text::{
    ascii_lower_char, ascii_lowercase, lemma_ascii_lowercase_idempotent, lowercase, str_eq, to_lowercase,
    to_owned_string,
};
use vstd::utf8::is_ascii_chars;
use vstd::prelude::*;

verus! {

/// A key as the keyboard hook reports it. The letters, digits, function and
/// special keys that the bindings use have a variant each; `Unknown` carries
/// the raw code of a key the hook could not name, and `Other` stands for every
/// other key.
#[derive(Clone, Copy, Debug, PartialEq, Eq, Structural)]
pub enum Key {
    KeyA,
    KeyB,
    KeyC,
    KeyD,
    KeyE,
    KeyF,
    KeyG,
    KeyH,
    KeyI,
    KeyJ,
    KeyK,
    KeyL,
    KeyM,
    KeyN,
    KeyO,
    KeyP,
    KeyQ,
    KeyR,
    KeyS,
    KeyT,
    KeyU,
    KeyV,
    KeyW,
    KeyX,
    KeyY,
    KeyZ,
    Num0,
    Num1,
    Num2,
    Num3,
    Num4,
    Num5,
    Num6,
    Num7,
    Num8,
    Num9,
    Space,
    Escape,
    Return,
    Backspace,
    Tab,
    BackQuote,
    F1,
    F2,
    F3,
    F4,
    F5,
    F6,
    F7,
    F8,
    F9,
    F10,
    F11,
    F12,
    Unknown(u32),
    Other,
}

/// The virtual-key code of a key; keys without one map to 0 (unassigned).
pub open spec fn vk_of(key: Key) -> u16 {
    match key {
        Key::KeyA => 0x41,
        Key::KeyB => 0x42,
        Key::KeyC => 0x43,
        Key::KeyD => 0x44,
        Key::KeyE => 0x45,
        Key::KeyF => 0x46,
        Key::KeyG => 0x47,
        Key::KeyH => 0x48,
        Key::KeyI => 0x49,
        Key::KeyJ => 0x4A,
        Key::KeyK => 0x4B,
        Key::KeyL => 0x4C,
        Key::KeyM => 0x4D,
        Key::KeyN => 0x4E,
        Key::KeyO => 0x4F,
        Key::KeyP => 0x50,
        Key::KeyQ => 0x51,
        Key::KeyR => 0x52,
        Key::KeyS => 0x53,
        Key::KeyT => 0x54,
        Key::KeyU => 0x55,
        Key::KeyV => 0x56,
        Key::KeyW => 0x57,
        Key::KeyX => 0x58,
        Key::KeyY => 0x59,
        Key::KeyZ => 0x5A,
        Key::Num0 => 0x30,
        Key::Num1 => 0x31,
        Key::Num2 => 0x32,
        Key::Num3 => 0x33,
        Key::Num4 => 0x34,
        Key::Num5 => 0x35,
        Key::Num6 => 0x36,
        Key::Num7 => 0x37,
        Key::Num8 => 0x38,
        Key::Num9 => 0x39,
        Key::Space => 0x20,
        Key::Escape => 0x1B,
        Key::Return => 0x0D,
        Key::Backspace => 0x08,
        Key::Tab => 0x09,
        Key::BackQuote => 0xC0,
        _ => 0,
    }
}

/// The key a lowercase binding name stands for; an unknown name stands for
/// the unknown key with code 0.
pub open spec fn key_named(name: Seq<char>) -> Key {
    if name == "q"@ {
        Key::KeyQ
    } else if name == "w"@ {
        Key::KeyW
    } else if name == "e"@ {
        Key::KeyE
    } else if name == "r"@ {
        Key::KeyR
    } else if name == "t"@ {
        Key::KeyT
    } else if name == "y"@ {
        Key::KeyY
    } else if name == "u"@ {
        Key::KeyU
    } else if name == "i"@ {
        Key::KeyI
    } else if name == "o"@ {
        Key::KeyO
    } else if name == "p"@ {
        Key::KeyP
    } else if name == "a"@ {
        Key::KeyA
    } else if name == "s"@ {
        Key::KeyS
    } else if name == "d"@ {
        Key::KeyD
    } else if name == "f"@ {
        Key::KeyF
    } else if name == "g"@ {
        Key::KeyG
    } else if name == "h"@ {
        Key::KeyH
    } else if name == "j"@ {
        Key::KeyJ
    } else if name == "k"@ {
        Key::KeyK
    } else if name == "l"@ {
        Key::KeyL
    } else if name == "z"@ {
        Key::KeyZ
    } else if name == "x"@ {
        Key::KeyX
    } else if name == "c"@ {
        Key::KeyC
    } else if name == "v"@ {
        Key::KeyV
    } else if name == "b"@ {
        Key::KeyB
    } else if name == "n"@ {
        Key::KeyN
    } else if name == "m"@ {
        Key::KeyM
    } else if name == "space"@ {
        Key::Space
    } else if name == "escape"@ || name == "esc"@ {
        Key::Escape
    } else if name == "enter"@ || name == "return"@ {
        Key::Return
    } else if name == "backspace"@ {
        Key::Backspace
    } else if name == "backtick"@ || name == "`"@ {
        Key::BackQuote
    } else if name == "tab"@ {
        Key::Tab
    } else if name == "f1"@ {
        Key::F1
    } else if name == "f2"@ {
        Key::F2
    } else if name == "f3"@ {
        Key::F3
    } else if name == "f4"@ {
        Key::F4
    } else if name == "f5"@ {
        Key::F5
    } else if name == "f6"@ {
        Key::F6
    } else if name == "f7"@ {
        Key::F7
    } else if name == "f8"@ {
        Key::F8
    } else if name == "f9"@ {
        Key::F9
    } else if name == "f10"@ {
        Key::F10
    } else if name == "f11"@ {
        Key::F11
    } else if name == "f12"@ {
        Key::F12
    } else if name == "num0"@ || name == "0"@ {
        Key::Num0
    } else if name == "num1"@ || name == "1"@ {
        Key::Num1
    } else if name == "num2"@ || name == "2"@ {
        Key::Num2
    } else if name == "num3"@ || name == "3"@ {
        Key::Num3
    } else if name == "num4"@ || name == "4"@ {
        Key::Num4
    } else if name == "num5"@ || name == "5"@ {
        Key::Num5
    } else if name == "num6"@ || name == "6"@ {
        Key::Num6
    } else if name == "num7"@ || name == "7"@ {
        Key::Num7
    } else if name == "num8"@ || name == "8"@ {
        Key::Num8
    } else if name == "num9"@ || name == "9"@ {
        Key::Num9
    } else {
        Key::Unknown(0)
    }
}

/// The name shown for a virtual-key code.
pub open spec fn vk_name(code: u16) -> Seq<char> {
    match code {
        0x41 => "A"@,
        0x42 => "B"@,
        0x43 => "C"@,
        0x44 => "D"@,
        0x45 => "E"@,
        0x46 => "F"@,
        0x47 => "G"@,
        0x48 => "H"@,
        0x49 => "I"@,
        0x4A => "J"@,
        0x4B => "K"@,
        0x4C => "L"@,
        0x4D => "M"@,
        0x4E => "N"@,
        0x4F => "O"@,
        0x50 => "P"@,
        0x51 => "Q"@,
        0x52 => "R"@,
        0x53 => "S"@,
        0x54 => "T"@,
        0x55 => "U"@,
        0x56 => "V"@,
        0x57 => "W"@,
        0x58 => "X"@,
        0x59 => "Y"@,
        0x5A => "Z"@,
        0x30 => "Num0"@,
        0x31 => "Num1"@,
        0x32 => "Num2"@,
        0x33 => "Num3"@,
        0x34 => "Num4"@,
        0x35 => "Num5"@,
        0x36 => "Num6"@,
        0x37 => "Num7"@,
        0x38 => "Num8"@,
        0x39 => "Num9"@,
        0x70 => "F1"@,
        0x71 => "F2"@,
        0x72 => "F3"@,
        0x73 => "F4"@,
        0x74 => "F5"@,
        0x75 => "F6"@,
        0x76 => "F7"@,
        0x77 => "F8"@,
        0x78 => "F9"@,
        0x79 => "F10"@,
        0x7A => "F11"@,
        0x7B => "F12"@,
        0x20 => "Space"@,
        0x1B => "Escape"@,
        0x0D => "Enter"@,
        0x08 => "Backspace"@,
        0x09 => "Tab"@,
        0xC0 => "Backtick"@,
        _ => "Unknown"@,
    }
}

/// The virtual-key code that a binding name stands for, after lowercasing.
pub open spec fn parse_key_spec(key_str: Seq<char>) -> u16 {
    vk_of(key_named(lowercase(key_str)))
}

/// The virtual-key code of a key; keys without one map to 0 (unassigned).
pub fn rdev_to_win_vk(key: Key) -> (code: u16)
    ensures
        code == vk_of(key),
{
    match key {
        Key::KeyA => 0x41,
        Key::KeyB => 0x42,
        Key::KeyC => 0x43,
        Key::KeyD => 0x44,
        Key::KeyE => 0x45,
        Key::KeyF => 0x46,
        Key::KeyG => 0x47,
        Key::KeyH => 0x48,
        Key::KeyI => 0x49,
        Key::KeyJ => 0x4A,
        Key::KeyK => 0x4B,
        Key::KeyL => 0x4C,
        Key::KeyM => 0x4D,
        Key::KeyN => 0x4E,
        Key::KeyO => 0x4F,
        Key::KeyP => 0x50,
        Key::KeyQ => 0x51,
        Key::KeyR => 0x52,
        Key::KeyS => 0x53,
        Key::KeyT => 0x54,
        Key::KeyU => 0x55,
        Key::KeyV => 0x56,
        Key::KeyW => 0x57,
        Key::KeyX => 0x58,
        Key::KeyY => 0x59,
        Key::KeyZ => 0x5A,
        Key::Num0 => 0x30,
        Key::Num1 => 0x31,
        Key::Num2 => 0x32,
        Key::Num3 => 0x33,
        Key::Num4 => 0x34,
        Key::Num5 => 0x35,
        Key::Num6 => 0x36,
        Key::Num7 => 0x37,
        Key::Num8 => 0x38,
        Key::Num9 => 0x39,
        Key::Space => 0x20,
        Key::Escape => 0x1B,
        Key::Return => 0x0D,
        Key::Backspace => 0x08,
        Key::Tab => 0x09,
        Key::BackQuote => 0xC0,
        _ => 0x00,
    }
}

/// The key a lowercase binding name stands for.
pub fn key_from_name(name: &str) -> (key: Key)
    ensures
        key == key_named(name@),
{
    if str_eq(name, "q") {
        Key::KeyQ
    } else if str_eq(name, "w") {
        Key::KeyW
    } else if str_eq(name, "e") {
        Key::KeyE
    } else if str_eq(name, "r") {
        Key::KeyR
    } else if str_eq(name, "t") {
        Key::KeyT
    } else if str_eq(name, "y") {
        Key::KeyY
    } else if str_eq(name, "u") {
        Key::KeyU
    } else if str_eq(name, "i") {
        Key::KeyI
    } else if str_eq(name, "o") {
        Key::KeyO
    } else if str_eq(name, "p") {
        Key::KeyP
    } else if str_eq(name, "a") {
        Key::KeyA
    } else if str_eq(name, "s") {
        Key::KeyS
    } else if str_eq(name, "d") {
        Key::KeyD
    } else if str_eq(name, "f") {
        Key::KeyF
    } else if str_eq(name, "g") {
        Key::KeyG
    } else if str_eq(name, "h") {
        Key::KeyH
    } else if str_eq(name, "j") {
        Key::KeyJ
    } else if str_eq(name, "k") {
        Key::KeyK
    } else if str_eq(name, "l") {
        Key::KeyL
    } else if str_eq(name, "z") {
        Key::KeyZ
    } else if str_eq(name, "x") {
        Key::KeyX
    } else if str_eq(name, "c") {
        Key::KeyC
    } else if str_eq(name, "v") {
        Key::KeyV
    } else if str_eq(name, "b") {
        Key::KeyB
    } else if str_eq(name, "n") {
        Key::KeyN
    } else if str_eq(name, "m") {
        Key::KeyM
    } else if str_eq(name, "space") {
        Key::Space
    } else if str_eq(name, "escape") || str_eq(name, "esc") {
        Key::Escape
    } else if str_eq(name, "enter") || str_eq(name, "return") {
        Key::Return
    } else if str_eq(name, "backspace") {
        Key::Backspace
    } else if str_eq(name, "backtick") || str_eq(name, "`") {
        Key::BackQuote
    } else if str_eq(name, "tab") {
        Key::Tab
    } else if str_eq(name, "f1") {
        Key::F1
    } else if str_eq(name, "f2") {
        Key::F2
    } else if str_eq(name, "f3") {
        Key::F3
    } else if str_eq(name, "f4") {
        Key::F4
    } else if str_eq(name, "f5") {
        Key::F5
    } else if str_eq(name, "f6") {
        Key::F6
    } else if str_eq(name, "f7") {
        Key::F7
    } else if str_eq(name, "f8") {
        Key::F8
    } else if str_eq(name, "f9") {
        Key::F9
    } else if str_eq(name, "f10") {
        Key::F10
    } else if str_eq(name, "f11") {
        Key::F11
    } else if str_eq(name, "f12") {
        Key::F12
    } else if str_eq(name, "num0") || str_eq(name, "0") {
        Key::Num0
    } else if str_eq(name, "num1") || str_eq(name, "1") {
        Key::Num1
    } else if str_eq(name, "num2") || str_eq(name, "2") {
        Key::Num2
    } else if str_eq(name, "num3") || str_eq(name, "3") {
        Key::Num3
    } else if str_eq(name, "num4") || str_eq(name, "4") {
        Key::Num4
    } else if str_eq(name, "num5") || str_eq(name, "5") {
        Key::Num5
    } else if str_eq(name, "num6") || str_eq(name, "6") {
        Key::Num6
    } else if str_eq(name, "num7") || str_eq(name, "7") {
        Key::Num7
    } else if str_eq(name, "num8") || str_eq(name, "8") {
        Key::Num8
    } else if str_eq(name, "num9") || str_eq(name, "9") {
        Key::Num9
    } else {
        Key::Unknown(0)
    }
}

/// The virtual-key code a binding name stands for; the name is lowercased
/// first, and an unknown name gives 0.
pub fn parse_key(key_str: &str) -> (code: u16)
    ensures
        code == parse_key_spec(key_str@),
{
    let lower = to_lowercase(key_str);
    rdev_to_win_vk(key_from_name(lower.as_str()))
}

/// The name shown for a virtual-key code: letters, `Num0`..`Num9`, `F1`..`F12`
/// and six special keys; any other code is `Unknown`.
pub fn key_code_to_str(vk_code: u16) -> (s: String)
    ensures
        s@ == vk_name(vk_code),
{
    let code = match vk_code {
        0x41 => "A",
        0x42 => "B",
        0x43 => "C",
        0x44 => "D",
        0x45 => "E",
        0x46 => "F",
        0x47 => "G",
        0x48 => "H",
        0x49 => "I",
        0x4A => "J",
        0x4B => "K",
        0x4C => "L",
        0x4D => "M",
        0x4E => "N",
        0x4F => "O",
        0x50 => "P",
        0x51 => "Q",
        0x52 => "R",
        0x53 => "S",
        0x54 => "T",
        0x55 => "U",
        0x56 => "V",
        0x57 => "W",
        0x58 => "X",
        0x59 => "Y",
        0x5A => "Z",
        0x30 => "Num0",
        0x31 => "Num1",
        0x32 => "Num2",
        0x33 => "Num3",
        0x34 => "Num4",
        0x35 => "Num5",
        0x36 => "Num6",
        0x37 => "Num7",
        0x38 => "Num8",
        0x39 => "Num9",
        0x70 => "F1",
        0x71 => "F2",
        0x72 => "F3",
        0x73 => "F4",
        0x74 => "F5",
        0x75 => "F6",
        0x76 => "F7",
        0x77 => "F8",
        0x78 => "F9",
        0x79 => "F10",
        0x7A => "F11",
        0x7B => "F12",
        0x20 => "Space",
        0x1B => "Escape",
        0x0D => "Enter",
        0x08 => "Backspace",
        0x09 => "Tab",
        0xC0 => "Backtick",
        _ => "Unknown",
    };
    to_owned_string(code)
}



/// The characters of every name in the tables above.
proof fn lemma_table_names()
    ensures
        "q"@.len() == 1 && "q"@[0] == 'q',
        "w"@.len() == 1 && "w"@[0] == 'w',
        "e"@.len() == 1 && "e"@[0] == 'e',
        "r"@.len() == 1 && "r"@[0] == 'r',
        "t"@.len() == 1 && "t"@[0] == 't',
        "y"@.len() == 1 && "y"@[0] == 'y',
        "u"@.len() == 1 && "u"@[0] == 'u',
        "i"@.len() == 1 && "i"@[0] == 'i',
        "o"@.len() == 1 && "o"@[0] == 'o',
        "p"@.len() == 1 && "p"@[0] == 'p',
        "a"@.len() == 1 && "a"@[0] == 'a',
        "s"@.len() == 1 && "s"@[0] == 's',
        "d"@.len() == 1 && "d"@[0] == 'd',
        "f"@.len() == 1 && "f"@[0] == 'f',
        "g"@.len() == 1 && "g"@[0] == 'g',
        "h"@.len() == 1 && "h"@[0] == 'h',
        "j"@.len() == 1 && "j"@[0] == 'j',
        "k"@.len() == 1 && "k"@[0] == 'k',
        "l"@.len() == 1 && "l"@[0] == 'l',
        "z"@.len() == 1 && "z"@[0] == 'z',
        "x"@.len() == 1 && "x"@[0] == 'x',
        "c"@.len() == 1 && "c"@[0] == 'c',
        "v"@.len() == 1 && "v"@[0] == 'v',
        "b"@.len() == 1 && "b"@[0] == 'b',
        "n"@.len() == 1 && "n"@[0] == 'n',
        "m"@.len() == 1 && "m"@[0] == 'm',
        "space"@.len() == 5 && "space"@[0] == 's' && "space"@[1] == 'p' && "space"@[2] == 'a' && "space"@[3] == 'c' && "space"@[4] == 'e',
        "escape"@.len() == 6 && "escape"@[0] == 'e' && "escape"@[1] == 's' && "escape"@[2] == 'c' && "escape"@[3] == 'a' && "escape"@[4] == 'p' && "escape"@[5] == 'e',
        "esc"@.len() == 3 && "esc"@[0] == 'e' && "esc"@[1] == 's' && "esc"@[2] == 'c',
        "enter"@.len() == 5 && "enter"@[0] == 'e' && "enter"@[1] == 'n' && "enter"@[2] == 't' && "enter"@[3] == 'e' && "enter"@[4] == 'r',
        "return"@.len() == 6 && "return"@[0] == 'r' && "return"@[1] == 'e' && "return"@[2] == 't' && "return"@[3] == 'u' && "return"@[4] == 'r' && "return"@[5] == 'n',
        "backspace"@.len() == 9 && "backspace"@[0] == 'b' && "backspace"@[1] == 'a' && "backspace"@[2] == 'c' && "backspace"@[3] == 'k' && "backspace"@[4] == 's' && "backspace"@[5] == 'p' && "backspace"@[6] == 'a' && "backspace"@[7] == 'c' && "backspace"@[8] == 'e',
        "backtick"@.len() == 8 && "backtick"@[0] == 'b' && "backtick"@[1] == 'a' && "backtick"@[2] == 'c' && "backtick"@[3] == 'k' && "backtick"@[4] == 't' && "backtick"@[5] == 'i' && "backtick"@[6] == 'c' && "backtick"@[7] == 'k',
        "`"@.len() == 1 && "`"@[0] == '`',
        "tab"@.len() == 3 && "tab"@[0] == 't' && "tab"@[1] == 'a' && "tab"@[2] == 'b',
        "f1"@.len() == 2 && "f1"@[0] == 'f' && "f1"@[1] == '1',
        "f2"@.len() == 2 && "f2"@[0] == 'f' && "f2"@[1] == '2',
        "f3"@.len() == 2 && "f3"@[0] == 'f' && "f3"@[1] == '3',
        "f4"@.len() == 2 && "f4"@[0] == 'f' && "f4"@[1] == '4',
        "f5"@.len() == 2 && "f5"@[0] == 'f' && "f5"@[1] == '5',
        "f6"@.len() == 2 && "f6"@[0] == 'f' && "f6"@[1] == '6',
        "f7"@.len() == 2 && "f7"@[0] == 'f' && "f7"@[1] == '7',
        "f8"@.len() == 2 && "f8"@[0] == 'f' && "f8"@[1] == '8',
        "f9"@.len() == 2 && "f9"@[0] == 'f' && "f9"@[1] == '9',
        "f10"@.len() == 3 && "f10"@[0] == 'f' && "f10"@[1] == '1' && "f10"@[2] == '0',
        "f11"@.len() == 3 && "f11"@[0] == 'f' && "f11"@[1] == '1' && "f11"@[2] == '1',
        "f12"@.len() == 3 && "f12"@[0] == 'f' && "f12"@[1] == '1' && "f12"@[2] == '2',
        "num0"@.len() == 4 && "num0"@[0] == 'n' && "num0"@[1] == 'u' && "num0"@[2] == 'm' && "num0"@[3] == '0',
        "0"@.len() == 1 && "0"@[0] == '0',
        "num1"@.len() == 4 && "num1"@[0] == 'n' && "num1"@[1] == 'u' && "num1"@[2] == 'm' && "num1"@[3] == '1',
        "1"@.len() == 1 && "1"@[0] == '1',
        "num2"@.len() == 4 && "num2"@[0] == 'n' && "num2"@[1] == 'u' && "num2"@[2] == 'm' && "num2"@[3] == '2',
        "2"@.len() == 1 && "2"@[0] == '2',
        "num3"@.len() == 4 && "num3"@[0] == 'n' && "num3"@[1] == 'u' && "num3"@[2] == 'm' && "num3"@[3] == '3',
        "3"@.len() == 1 && "3"@[0] == '3',
        "num4"@.len() == 4 && "num4"@[0] == 'n' && "num4"@[1] == 'u' && "num4"@[2] == 'm' && "num4"@[3] == '4',
        "4"@.len() == 1 && "4"@[0] == '4',
        "num5"@.len() == 4 && "num5"@[0] == 'n' && "num5"@[1] == 'u' && "num5"@[2] == 'm' && "num5"@[3] == '5',
        "5"@.len() == 1 && "5"@[0] == '5',
        "num6"@.len() == 4 && "num6"@[0] == 'n' && "num6"@[1] == 'u' && "num6"@[2] == 'm' && "num6"@[3] == '6',
        "6"@.len() == 1 && "6"@[0] == '6',
        "num7"@.len() == 4 && "num7"@[0] == 'n' && "num7"@[1] == 'u' && "num7"@[2] == 'm' && "num7"@[3] == '7',
        "7"@.len() == 1 && "7"@[0] == '7',
        "num8"@.len() == 4 && "num8"@[0] == 'n' && "num8"@[1] == 'u' && "num8"@[2] == 'm' && "num8"@[3] == '8',
        "8"@.len() == 1 && "8"@[0] == '8',
        "num9"@.len() == 4 && "num9"@[0] == 'n' && "num9"@[1] == 'u' && "num9"@[2] == 'm' && "num9"@[3] == '9',
        "9"@.len() == 1 && "9"@[0] == '9',
        "A"@.len() == 1 && "A"@[0] == 'A',
        "B"@.len() == 1 && "B"@[0] == 'B',
        "C"@.len() == 1 && "C"@[0] == 'C',
        "D"@.len() == 1 && "D"@[0] == 'D',
        "E"@.len() == 1 && "E"@[0] == 'E',
        "F"@.len() == 1 && "F"@[0] == 'F',
        "G"@.len() == 1 && "G"@[0] == 'G',
        "H"@.len() == 1 && "H"@[0] == 'H',
        "I"@.len() == 1 && "I"@[0] == 'I',
        "J"@.len() == 1 && "J"@[0] == 'J',
        "K"@.len() == 1 && "K"@[0] == 'K',
        "L"@.len() == 1 && "L"@[0] == 'L',
        "M"@.len() == 1 && "M"@[0] == 'M',
        "N"@.len() == 1 && "N"@[0] == 'N',
        "O"@.len() == 1 && "O"@[0] == 'O',
        "P"@.len() == 1 && "P"@[0] == 'P',
        "Q"@.len() == 1 && "Q"@[0] == 'Q',
        "R"@.len() == 1 && "R"@[0] == 'R',
        "S"@.len() == 1 && "S"@[0] == 'S',
        "T"@.len() == 1 && "T"@[0] == 'T',
        "U"@.len() == 1 && "U"@[0] == 'U',
        "V"@.len() == 1 && "V"@[0] == 'V',
        "W"@.len() == 1 && "W"@[0] == 'W',
        "X"@.len() == 1 && "X"@[0] == 'X',
        "Y"@.len() == 1 && "Y"@[0] == 'Y',
        "Z"@.len() == 1 && "Z"@[0] == 'Z',
        "Num0"@.len() == 4 && "Num0"@[0] == 'N' && "Num0"@[1] == 'u' && "Num0"@[2] == 'm' && "Num0"@[3] == '0',
        "Num1"@.len() == 4 && "Num1"@[0] == 'N' && "Num1"@[1] == 'u' && "Num1"@[2] == 'm' && "Num1"@[3] == '1',
        "Num2"@.len() == 4 && "Num2"@[0] == 'N' && "Num2"@[1] == 'u' && "Num2"@[2] == 'm' && "Num2"@[3] == '2',
        "Num3"@.len() == 4 && "Num3"@[0] == 'N' && "Num3"@[1] == 'u' && "Num3"@[2] == 'm' && "Num3"@[3] == '3',
        "Num4"@.len() == 4 && "Num4"@[0] == 'N' && "Num4"@[1] == 'u' && "Num4"@[2] == 'm' && "Num4"@[3] == '4',
        "Num5"@.len() == 4 && "Num5"@[0] == 'N' && "Num5"@[1] == 'u' && "Num5"@[2] == 'm' && "Num5"@[3] == '5',
        "Num6"@.len() == 4 && "Num6"@[0] == 'N' && "Num6"@[1] == 'u' && "Num6"@[2] == 'm' && "Num6"@[3] == '6',
        "Num7"@.len() == 4 && "Num7"@[0] == 'N' && "Num7"@[1] == 'u' && "Num7"@[2] == 'm' && "Num7"@[3] == '7',
        "Num8"@.len() == 4 && "Num8"@[0] == 'N' && "Num8"@[1] == 'u' && "Num8"@[2] == 'm' && "Num8"@[3] == '8',
        "Num9"@.len() == 4 && "Num9"@[0] == 'N' && "Num9"@[1] == 'u' && "Num9"@[2] == 'm' && "Num9"@[3] == '9',
        "F1"@.len() == 2 && "F1"@[0] == 'F' && "F1"@[1] == '1',
        "F2"@.len() == 2 && "F2"@[0] == 'F' && "F2"@[1] == '2',
        "F3"@.len() == 2 && "F3"@[0] == 'F' && "F3"@[1] == '3',
        "F4"@.len() == 2 && "F4"@[0] == 'F' && "F4"@[1] == '4',
        "F5"@.len() == 2 && "F5"@[0] == 'F' && "F5"@[1] == '5',
        "F6"@.len() == 2 && "F6"@[0] == 'F' && "F6"@[1] == '6',
        "F7"@.len() == 2 && "F7"@[0] == 'F' && "F7"@[1] == '7',
        "F8"@.len() == 2 && "F8"@[0] == 'F' && "F8"@[1] == '8',
        "F9"@.len() == 2 && "F9"@[0] == 'F' && "F9"@[1] == '9',
        "F10"@.len() == 3 && "F10"@[0] == 'F' && "F10"@[1] == '1' && "F10"@[2] == '0',
        "F11"@.len() == 3 && "F11"@[0] == 'F' && "F11"@[1] == '1' && "F11"@[2] == '1',
        "F12"@.len() == 3 && "F12"@[0] == 'F' && "F12"@[1] == '1' && "F12"@[2] == '2',
        "Space"@.len() == 5 && "Space"@[0] == 'S' && "Space"@[1] == 'p' && "Space"@[2] == 'a' && "Space"@[3] == 'c' && "Space"@[4] == 'e',
        "Escape"@.len() == 6 && "Escape"@[0] == 'E' && "Escape"@[1] == 's' && "Escape"@[2] == 'c' && "Escape"@[3] == 'a' && "Escape"@[4] == 'p' && "Escape"@[5] == 'e',
        "Enter"@.len() == 5 && "Enter"@[0] == 'E' && "Enter"@[1] == 'n' && "Enter"@[2] == 't' && "Enter"@[3] == 'e' && "Enter"@[4] == 'r',
        "Backspace"@.len() == 9 && "Backspace"@[0] == 'B' && "Backspace"@[1] == 'a' && "Backspace"@[2] == 'c' && "Backspace"@[3] == 'k' && "Backspace"@[4] == 's' && "Backspace"@[5] == 'p' && "Backspace"@[6] == 'a' && "Backspace"@[7] == 'c' && "Backspace"@[8] == 'e',
        "Tab"@.len() == 3 && "Tab"@[0] == 'T' && "Tab"@[1] == 'a' && "Tab"@[2] == 'b',
        "Backtick"@.len() == 8 && "Backtick"@[0] == 'B' && "Backtick"@[1] == 'a' && "Backtick"@[2] == 'c' && "Backtick"@[3] == 'k' && "Backtick"@[4] == 't' && "Backtick"@[5] == 'i' && "Backtick"@[6] == 'c' && "Backtick"@[7] == 'k',
        "Unknown"@.len() == 7 && "Unknown"@[0] == 'U' && "Unknown"@[1] == 'n' && "Unknown"@[2] == 'k' && "Unknown"@[3] == 'n' && "Unknown"@[4] == 'o' && "Unknown"@[5] == 'w' && "Unknown"@[6] == 'n',
        "unknown"@.len() == 7 && "unknown"@[0] == 'u' && "unknown"@[1] == 'n' && "unknown"@[2] == 'k' && "unknown"@[3] == 'n' && "unknown"@[4] == 'o' && "unknown"@[5] == 'w' && "unknown"@[6] == 'n',
{
    reveal_strlit("q");
    reveal_strlit("w");
    reveal_strlit("e");
    reveal_strlit("r");
    reveal_strlit("t");
    reveal_strlit("y");
    reveal_strlit("u");
    reveal_strlit("i");
    reveal_strlit("o");
    reveal_strlit("p");
    reveal_strlit("a");
    reveal_strlit("s");
    reveal_strlit("d");
    reveal_strlit("f");
    reveal_strlit("g");
    reveal_strlit("h");
    reveal_strlit("j");
    reveal_strlit("k");
    reveal_strlit("l");
    reveal_strlit("z");
    reveal_strlit("x");
    reveal_strlit("c");
    reveal_strlit("v");
    reveal_strlit("b");
    reveal_strlit("n");
    reveal_strlit("m");
    reveal_strlit("space");
    reveal_strlit("escape");
    reveal_strlit("esc");
    reveal_strlit("enter");
    reveal_strlit("return");
    reveal_strlit("backspace");
    reveal_strlit("backtick");
    reveal_strlit("`");
    reveal_strlit("tab");
    reveal_strlit("f1");
    reveal_strlit("f2");
    reveal_strlit("f3");
    reveal_strlit("f4");
    reveal_strlit("f5");
    reveal_strlit("f6");
    reveal_strlit("f7");
    reveal_strlit("f8");
    reveal_strlit("f9");
    reveal_strlit("f10");
    reveal_strlit("f11");
    reveal_strlit("f12");
    reveal_strlit("num0");
    reveal_strlit("0");
    reveal_strlit("num1");
    reveal_strlit("1");
    reveal_strlit("num2");
    reveal_strlit("2");
    reveal_strlit("num3");
    reveal_strlit("3");
    reveal_strlit("num4");
    reveal_strlit("4");
    reveal_strlit("num5");
    reveal_strlit("5");
    reveal_strlit("num6");
    reveal_strlit("6");
    reveal_strlit("num7");
    reveal_strlit("7");
    reveal_strlit("num8");
    reveal_strlit("8");
    reveal_strlit("num9");
    reveal_strlit("9");
    reveal_strlit("A");
    reveal_strlit("B");
    reveal_strlit("C");
    reveal_strlit("D");
    reveal_strlit("E");
    reveal_strlit("F");
    reveal_strlit("G");
    reveal_strlit("H");
    reveal_strlit("I");
    reveal_strlit("J");
    reveal_strlit("K");
    reveal_strlit("L");
    reveal_strlit("M");
    reveal_strlit("N");
    reveal_strlit("O");
    reveal_strlit("P");
    reveal_strlit("Q");
    reveal_strlit("R");
    reveal_strlit("S");
    reveal_strlit("T");
    reveal_strlit("U");
    reveal_strlit("V");
    reveal_strlit("W");
    reveal_strlit("X");
    reveal_strlit("Y");
    reveal_strlit("Z");
    reveal_strlit("Num0");
    reveal_strlit("Num1");
    reveal_strlit("Num2");
    reveal_strlit("Num3");
    reveal_strlit("Num4");
    reveal_strlit("Num5");
    reveal_strlit("Num6");
    reveal_strlit("Num7");
    reveal_strlit("Num8");
    reveal_strlit("Num9");
    reveal_strlit("F1");
    reveal_strlit("F2");
    reveal_strlit("F3");
    reveal_strlit("F4");
    reveal_strlit("F5");
    reveal_strlit("F6");
    reveal_strlit("F7");
    reveal_strlit("F8");
    reveal_strlit("F9");
    reveal_strlit("F10");
    reveal_strlit("F11");
    reveal_strlit("F12");
    reveal_strlit("Space");
    reveal_strlit("Escape");
    reveal_strlit("Enter");
    reveal_strlit("Backspace");
    reveal_strlit("Tab");
    reveal_strlit("Backtick");
    reveal_strlit("Unknown");
    reveal_strlit("unknown");
}


/// The ASCII lowercase of every name shown for a code.
proof fn lemma_shown_names_lowered()
    ensures
        is_ascii_chars("A"@) && ascii_lowercase("A"@) == "a"@,
        is_ascii_chars("B"@) && ascii_lowercase("B"@) == "b"@,
        is_ascii_chars("C"@) && ascii_lowercase("C"@) == "c"@,
        is_ascii_chars("D"@) && ascii_lowercase("D"@) == "d"@,
        is_ascii_chars("E"@) && ascii_lowercase("E"@) == "e"@,
        is_ascii_chars("F"@) && ascii_lowercase("F"@) == "f"@,
        is_ascii_chars("G"@) && ascii_lowercase("G"@) == "g"@,
        is_ascii_chars("H"@) && ascii_lowercase("H"@) == "h"@,
        is_ascii_chars("I"@) && ascii_lowercase("I"@) == "i"@,
        is_ascii_chars("J"@) && ascii_lowercase("J"@) == "j"@,
        is_ascii_chars("K"@) && ascii_lowercase("K"@) == "k"@,
        is_ascii_chars("L"@) && ascii_lowercase("L"@) == "l"@,
        is_ascii_chars("M"@) && ascii_lowercase("M"@) == "m"@,
        is_ascii_chars("N"@) && ascii_lowercase("N"@) == "n"@,
        is_ascii_chars("O"@) && ascii_lowercase("O"@) == "o"@,
        is_ascii_chars("P"@) && ascii_lowercase("P"@) == "p"@,
        is_ascii_chars("Q"@) && ascii_lowercase("Q"@) == "q"@,
        is_ascii_chars("R"@) && ascii_lowercase("R"@) == "r"@,
        is_ascii_chars("S"@) && ascii_lowercase("S"@) == "s"@,
        is_ascii_chars("T"@) && ascii_lowercase("T"@) == "t"@,
        is_ascii_chars("U"@) && ascii_lowercase("U"@) == "u"@,
        is_ascii_chars("V"@) && ascii_lowercase("V"@) == "v"@,
        is_ascii_chars("W"@) && ascii_lowercase("W"@) == "w"@,
        is_ascii_chars("X"@) && ascii_lowercase("X"@) == "x"@,
        is_ascii_chars("Y"@) && ascii_lowercase("Y"@) == "y"@,
        is_ascii_chars("Z"@) && ascii_lowercase("Z"@) == "z"@,
        is_ascii_chars("Num0"@) && ascii_lowercase("Num0"@) == "num0"@,
        is_ascii_chars("Num1"@) && ascii_lowercase("Num1"@) == "num1"@,
        is_ascii_chars("Num2"@) && ascii_lowercase("Num2"@) == "num2"@,
        is_ascii_chars("Num3"@) && ascii_lowercase("Num3"@) == "num3"@,
        is_ascii_chars("Num4"@) && ascii_lowercase("Num4"@) == "num4"@,
        is_ascii_chars("Num5"@) && ascii_lowercase("Num5"@) == "num5"@,
        is_ascii_chars("Num6"@) && ascii_lowercase("Num6"@) == "num6"@,
        is_ascii_chars("Num7"@) && ascii_lowercase("Num7"@) == "num7"@,
        is_ascii_chars("Num8"@) && ascii_lowercase("Num8"@) == "num8"@,
        is_ascii_chars("Num9"@) && ascii_lowercase("Num9"@) == "num9"@,
        is_ascii_chars("F1"@) && ascii_lowercase("F1"@) == "f1"@,
        is_ascii_chars("F2"@) && ascii_lowercase("F2"@) == "f2"@,
        is_ascii_chars("F3"@) && ascii_lowercase("F3"@) == "f3"@,
        is_ascii_chars("F4"@) && ascii_lowercase("F4"@) == "f4"@,
        is_ascii_chars("F5"@) && ascii_lowercase("F5"@) == "f5"@,
        is_ascii_chars("F6"@) && ascii_lowercase("F6"@) == "f6"@,
        is_ascii_chars("F7"@) && ascii_lowercase("F7"@) == "f7"@,
        is_ascii_chars("F8"@) && ascii_lowercase("F8"@) == "f8"@,
        is_ascii_chars("F9"@) && ascii_lowercase("F9"@) == "f9"@,
        is_ascii_chars("F10"@) && ascii_lowercase("F10"@) == "f10"@,
        is_ascii_chars("F11"@) && ascii_lowercase("F11"@) == "f11"@,
        is_ascii_chars("F12"@) && ascii_lowercase("F12"@) == "f12"@,
        is_ascii_chars("Space"@) && ascii_lowercase("Space"@) == "space"@,
        is_ascii_chars("Escape"@) && ascii_lowercase("Escape"@) == "escape"@,
        is_ascii_chars("Enter"@) && ascii_lowercase("Enter"@) == "enter"@,
        is_ascii_chars("Backspace"@) && ascii_lowercase("Backspace"@) == "backspace"@,
        is_ascii_chars("Tab"@) && ascii_lowercase("Tab"@) == "tab"@,
        is_ascii_chars("Backtick"@) && ascii_lowercase("Backtick"@) == "backtick"@,
        is_ascii_chars("Unknown"@) && ascii_lowercase("Unknown"@) == "unknown"@,
{
    lemma_table_names();
    assert(ascii_lowercase("A"@) =~= "a"@);
    assert(ascii_lowercase("B"@) =~= "b"@);
    assert(ascii_lowercase("C"@) =~= "c"@);
    assert(ascii_lowercase("D"@) =~= "d"@);
    assert(ascii_lowercase("E"@) =~= "e"@);
    assert(ascii_lowercase("F"@) =~= "f"@);
    assert(ascii_lowercase("G"@) =~= "g"@);
    assert(ascii_lowercase("H"@) =~= "h"@);
    assert(ascii_lowercase("I"@) =~= "i"@);
    assert(ascii_lowercase("J"@) =~= "j"@);
    assert(ascii_lowercase("K"@) =~= "k"@);
    assert(ascii_lowercase("L"@) =~= "l"@);
    assert(ascii_lowercase("M"@) =~= "m"@);
    assert(ascii_lowercase("N"@) =~= "n"@);
    assert(ascii_lowercase("O"@) =~= "o"@);
    assert(ascii_lowercase("P"@) =~= "p"@);
    assert(ascii_lowercase("Q"@) =~= "q"@);
    assert(ascii_lowercase("R"@) =~= "r"@);
    assert(ascii_lowercase("S"@) =~= "s"@);
    assert(ascii_lowercase("T"@) =~= "t"@);
    assert(ascii_lowercase("U"@) =~= "u"@);
    assert(ascii_lowercase("V"@) =~= "v"@);
    assert(ascii_lowercase("W"@) =~= "w"@);
    assert(ascii_lowercase("X"@) =~= "x"@);
    assert(ascii_lowercase("Y"@) =~= "y"@);
    assert(ascii_lowercase("Z"@) =~= "z"@);
    assert(ascii_lowercase("Num0"@) =~= "num0"@);
    assert(ascii_lowercase("Num1"@) =~= "num1"@);
    assert(ascii_lowercase("Num2"@) =~= "num2"@);
    assert(ascii_lowercase("Num3"@) =~= "num3"@);
    assert(ascii_lowercase("Num4"@) =~= "num4"@);
    assert(ascii_lowercase("Num5"@) =~= "num5"@);
    assert(ascii_lowercase("Num6"@) =~= "num6"@);
    assert(ascii_lowercase("Num7"@) =~= "num7"@);
    assert(ascii_lowercase("Num8"@) =~= "num8"@);
    assert(ascii_lowercase("Num9"@) =~= "num9"@);
    assert(ascii_lowercase("F1"@) =~= "f1"@);
    assert(ascii_lowercase("F2"@) =~= "f2"@);
    assert(ascii_lowercase("F3"@) =~= "f3"@);
    assert(ascii_lowercase("F4"@) =~= "f4"@);
    assert(ascii_lowercase("F5"@) =~= "f5"@);
    assert(ascii_lowercase("F6"@) =~= "f6"@);
    assert(ascii_lowercase("F7"@) =~= "f7"@);
    assert(ascii_lowercase("F8"@) =~= "f8"@);
    assert(ascii_lowercase("F9"@) =~= "f9"@);
    assert(ascii_lowercase("F10"@) =~= "f10"@);
    assert(ascii_lowercase("F11"@) =~= "f11"@);
    assert(ascii_lowercase("F12"@) =~= "f12"@);
    assert(ascii_lowercase("Space"@) =~= "space"@);
    assert(ascii_lowercase("Escape"@) =~= "escape"@);
    assert(ascii_lowercase("Enter"@) =~= "enter"@);
    assert(ascii_lowercase("Backspace"@) =~= "backspace"@);
    assert(ascii_lowercase("Tab"@) =~= "tab"@);
    assert(ascii_lowercase("Backtick"@) =~= "backtick"@);
    assert(ascii_lowercase("Unknown"@) =~= "unknown"@);
}

/// The codes that a name binds back to: letters, digits and the six special
/// keys (the function keys have names but no key code behind a name).
pub open spec fn is_bindable_vk(code: u16) -> bool {
    ||| 0x41 <= code <= 0x5A
    ||| 0x30 <= code <= 0x39
    ||| code == 0x20
    ||| code == 0x1B
    ||| code == 0x0D
    ||| code == 0x08
    ||| code == 0x09
    ||| code == 0xC0
}

/// Every key's code is bindable or 0.
pub proof fn lemma_vk_is_bindable_or_zero(key: Key)
    ensures
        is_bindable_vk(vk_of(key)) || vk_of(key) == 0,
{
}

/// The name shown for a letter, digit or special-key code is ASCII and parses
/// back to that code.
pub proof fn lemma_shown_name_parses_back(code: u16)
    requires
        is_bindable_vk(code),
    ensures
        is_ascii_chars(vk_name(code)),
        parse_key_spec(vk_name(code)) == code,
{
    lemma_table_names();
    lemma_shown_names_lowered();
}

/// Parsing the name shown for a parsed code gives that code again, so
/// a binding read back from its shown name keeps its key.
pub proof fn lemma_parse_is_stable(key_str: Seq<char>)
    ensures
        parse_key_spec(vk_name(parse_key_spec(key_str))) == parse_key_spec(key_str),
{
    let code: u16 = parse_key_spec(key_str);
    lemma_vk_is_bindable_or_zero(key_named(lowercase(key_str)));
    if code == 0 {
        lemma_table_names();
        lemma_shown_names_lowered();
        assert(key_named("unknown"@) == Key::Unknown(0));
    } else {
        lemma_shown_name_parses_back(code);
    }
}

/// Binding names are read without regard to case: an ASCII name stands for
/// the same key as its lowercase.
pub proof fn lemma_case_insensitive(key_str: Seq<char>)
    requires
        is_ascii_chars(key_str),
    ensures
        parse_key_spec(key_str) == parse_key_spec(ascii_lowercase(key_str)),
{
    lemma_ascii_lowercase_idempotent(key_str);
}

/// Binding names are read without regard to case, for any text whose
/// lowercase is its own lowercase: it stands for the same key as its
/// lowercase.
pub proof fn lemma_case_insensitive_where_lowercase_settles(key_str: Seq<char>)
    requires
        lowercase(lowercase(key_str)) == lowercase(key_str),
    ensures
        parse_key_spec(key_str) == parse_key_spec(lowercase(key_str)),
{
}

/// The virtual-key code of the key a lowercase letter or digit names: its
/// uppercase ASCII code (the digits and letters have VK codes 0x30..0x39 and
/// 0x41..0x5A).
pub open spec fn char_vk(c: char) -> int {
    if 'a' <= c <= 'z' { c as int - 32 } else { c as int }
}

/// A lowercase letter or digit names the key whose code is its uppercase
/// ASCII code.
proof fn lemma_lower_char_name(l: char)
    requires
        ('0' <= l <= '9') || ('a' <= l <= 'z'),
    ensures
        vk_of(key_named(seq![l])) == char_vk(l),
{
    lemma_table_names();
    if l == '0' {
        assert(seq![l] =~= "0"@);
    }
    if l == '1' {
        assert(seq![l] =~= "1"@);
    }
    if l == '2' {
        assert(seq![l] =~= "2"@);
    }
    if l == '3' {
        assert(seq![l] =~= "3"@);
    }
    if l == '4' {
        assert(seq![l] =~= "4"@);
    }
    if l == '5' {
        assert(seq![l] =~= "5"@);
    }
    if l == '6' {
        assert(seq![l] =~= "6"@);
    }
    if l == '7' {
        assert(seq![l] =~= "7"@);
    }
    if l == '8' {
        assert(seq![l] =~= "8"@);
    }
    if l == '9' {
        assert(seq![l] =~= "9"@);
    }
    if l == 'a' {
        assert(seq![l] =~= "a"@);
    }
    if l == 'b' {
        assert(seq![l] =~= "b"@);
    }
    if l == 'c' {
        assert(seq![l] =~= "c"@);
    }
    if l == 'd' {
        assert(seq![l] =~= "d"@);
    }
    if l == 'e' {
        assert(seq![l] =~= "e"@);
    }
    if l == 'f' {
        assert(seq![l] =~= "f"@);
    }
    if l == 'g' {
        assert(seq![l] =~= "g"@);
    }
    if l == 'h' {
        assert(seq![l] =~= "h"@);
    }
    if l == 'i' {
        assert(seq![l] =~= "i"@);
    }
    if l == 'j' {
        assert(seq![l] =~= "j"@);
    }
    if l == 'k' {
        assert(seq![l] =~= "k"@);
    }
    if l == 'l' {
        assert(seq![l] =~= "l"@);
    }
    if l == 'm' {
        assert(seq![l] =~= "m"@);
    }
    if l == 'n' {
        assert(seq![l] =~= "n"@);
    }
    if l == 'o' {
        assert(seq![l] =~= "o"@);
    }
    if l == 'p' {
        assert(seq![l] =~= "p"@);
    }
    if l == 'q' {
        assert(seq![l] =~= "q"@);
    }
    if l == 'r' {
        assert(seq![l] =~= "r"@);
    }
    if l == 's' {
        assert(seq![l] =~= "s"@);
    }
    if l == 't' {
        assert(seq![l] =~= "t"@);
    }
    if l == 'u' {
        assert(seq![l] =~= "u"@);
    }
    if l == 'v' {
        assert(seq![l] =~= "v"@);
    }
    if l == 'w' {
        assert(seq![l] =~= "w"@);
    }
    if l == 'x' {
        assert(seq![l] =~= "x"@);
    }
    if l == 'y' {
        assert(seq![l] =~= "y"@);
    }
    if l == 'z' {
        assert(seq![l] =~= "z"@);
    }
}

/// A one-character name, a letter of either case or a digit, stands for the
/// key whose virtual-key code is the character's uppercase ASCII code.
pub proof fn lemma_char_name_code(c: char)
    requires
        ('0' <= c <= '9') || ('a' <= c <= 'z') || ('A' <= c <= 'Z'),
    ensures
        parse_key_spec(seq![c]) == (if 'A' <= c <= 'Z' { c as int } else { char_vk(c) }),
{
    let s = seq![c];
    assert(is_ascii_chars(s)) by {
        assert forall|i: int| 0 <= i < s.len() implies '\0' <= #[trigger] s[i] <= '\u{7f}' by {
            assert(s[i] == c);
        }
    }
    lemma_ascii_lowercase_idempotent(s);
    let l = ascii_lower_char(c);
    assert(ascii_lowercase(s) =~= seq![l]);
    lemma_lower_char_name(l);
}

/// `numN` names the same key as the bare digit `N`: the one whose code is
/// the digit's ASCII code.
pub proof fn lemma_num_name_code(d: char)
    requires
        '0' <= d <= '9',
    ensures
        parse_key_spec(seq!['n', 'u', 'm', d]) == d as int,
        parse_key_spec(seq!['n', 'u', 'm', d]) == parse_key_spec(seq![d]),
{
    lemma_char_name_code(d);
    let s = seq!['n', 'u', 'm', d];
    assert(is_ascii_chars(s)) by {
        assert forall|i: int| 0 <= i < s.len() implies '\0' <= #[trigger] s[i] <= '\u{7f}' by {
        }
    }
    lemma_ascii_lowercase_idempotent(s);
    assert(ascii_lowercase(s) =~= s);
    lemma_table_names();
    if d == '0' {
        assert(seq!['n', 'u', 'm', d] =~= "num0"@);
    }
    if d == '1' {
        assert(seq!['n', 'u', 'm', d] =~= "num1"@);
    }
    if d == '2' {
        assert(seq!['n', 'u', 'm', d] =~= "num2"@);
    }
    if d == '3' {
        assert(seq!['n', 'u', 'm', d] =~= "num3"@);
    }
    if d == '4' {
        assert(seq!['n', 'u', 'm', d] =~= "num4"@);
    }
    if d == '5' {
        assert(seq!['n', 'u', 'm', d] =~= "num5"@);
    }
    if d == '6' {
        assert(seq!['n', 'u', 'm', d] =~= "num6"@);
    }
    if d == '7' {
        assert(seq!['n', 'u', 'm', d] =~= "num7"@);
    }
    if d == '8' {
        assert(seq!['n', 'u', 'm', d] =~= "num8"@);
    }
    if d == '9' {
        assert(seq!['n', 'u', 'm', d] =~= "num9"@);
    }
}

/// The named keys: `space` (0x20), `escape` or `esc` (0x1B), `enter` or
/// `return` (0x0D), `backspace` (0x08), `tab` (0x09), and `backtick` or the
/// backtick itself (0xC0, the key left of `1`); each pair of spellings names
/// one key.
pub proof fn lemma_named_key_codes()
    ensures
        vk_of(key_named("space"@)) == 0x20,
        vk_of(key_named("escape"@)) == 0x1b,
        vk_of(key_named("esc"@)) == 0x1b,
        vk_of(key_named("enter"@)) == 0xd,
        vk_of(key_named("return"@)) == 0xd,
        vk_of(key_named("backspace"@)) == 0x8,
        vk_of(key_named("tab"@)) == 0x9,
        vk_of(key_named("backtick"@)) == 0xc0,
        vk_of(key_named("`"@)) == 0xc0,
{
    assert(vk_of(key_named("space"@)) == 0x20) by {
        lemma_table_names();
    }
    assert(vk_of(key_named("escape"@)) == 0x1b) by {
        lemma_table_names();
    }
    assert(vk_of(key_named("esc"@)) == 0x1b) by {
        lemma_table_names();
    }
    assert(vk_of(key_named("enter"@)) == 0xd) by {
        lemma_table_names();
    }
    assert(vk_of(key_named("return"@)) == 0xd) by {
        lemma_table_names();
    }
    assert(vk_of(key_named("backspace"@)) == 0x8) by {
        lemma_table_names();
    }
    assert(vk_of(key_named("tab"@)) == 0x9) by {
        lemma_table_names();
    }
    assert(vk_of(key_named("backtick"@)) == 0xc0) by {
        lemma_table_names();
    }
    assert(vk_of(key_named("`"@)) == 0xc0) by {
        lemma_table_names();
    }
}

} // verus!
