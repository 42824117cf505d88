//! The Linux key table: the names a binding may be written with, the evdev
//! key codes they stand for, and the label shown for an evdev key code.

use crate::text::{ascii_lowercase, ascii_uppercase, lemma_ascii_lowercase_idempotent, lowercase, str_eq, to_lowercase};
use kbd_evdev::convert::EvdevKeyCodeExt;
use vstd::prelude::*;
use vstd::utf8::is_ascii_chars;

verus! {

/// What `evdev::KeyCode::from_str` gives for a constant's name: the code of the
/// `KeyCode` constant so named, if there is one.
pub uninterp spec fn evdev_code_named(name: Seq<char>) -> Option<u16>;

/// What `kbd_evdev`'s `EvdevKeyCodeExt::to_key` followed by `kbd::Key`'s
/// `Display` writes for an evdev key code.
pub uninterp spec fn kbd_key_label(code: u16) -> Seq<char>;

/// Calls `<evdev::KeyCode as FromStr>::from_str`, which looks the name up in
/// evdev's table of `KeyCode` constant names. The result is named
/// `evdev_code_named`; for the constants that the binding names stand for,
/// the codes that evdev's source gives them are stated.
#[verifier::external_body]
fn code_for_evdev_name(name: &str) -> (code: Option<u16>)
    ensures
        code == evdev_code_named(name@),
        name@ == "KEY_Q"@ ==> code == Some(16u16),
        name@ == "KEY_W"@ ==> code == Some(17u16),
        name@ == "KEY_E"@ ==> code == Some(18u16),
        name@ == "KEY_R"@ ==> code == Some(19u16),
        name@ == "KEY_T"@ ==> code == Some(20u16),
        name@ == "KEY_Y"@ ==> code == Some(21u16),
        name@ == "KEY_U"@ ==> code == Some(22u16),
        name@ == "KEY_I"@ ==> code == Some(23u16),
        name@ == "KEY_O"@ ==> code == Some(24u16),
        name@ == "KEY_P"@ ==> code == Some(25u16),
        name@ == "KEY_A"@ ==> code == Some(30u16),
        name@ == "KEY_S"@ ==> code == Some(31u16),
        name@ == "KEY_D"@ ==> code == Some(32u16),
        name@ == "KEY_F"@ ==> code == Some(33u16),
        name@ == "KEY_G"@ ==> code == Some(34u16),
        name@ == "KEY_H"@ ==> code == Some(35u16),
        name@ == "KEY_J"@ ==> code == Some(36u16),
        name@ == "KEY_K"@ ==> code == Some(37u16),
        name@ == "KEY_L"@ ==> code == Some(38u16),
        name@ == "KEY_Z"@ ==> code == Some(44u16),
        name@ == "KEY_X"@ ==> code == Some(45u16),
        name@ == "KEY_C"@ ==> code == Some(46u16),
        name@ == "KEY_V"@ ==> code == Some(47u16),
        name@ == "KEY_B"@ ==> code == Some(48u16),
        name@ == "KEY_N"@ ==> code == Some(49u16),
        name@ == "KEY_M"@ ==> code == Some(50u16),
        name@ == "KEY_SPACE"@ ==> code == Some(57u16),
        name@ == "KEY_ESC"@ ==> code == Some(1u16),
        name@ == "KEY_TAB"@ ==> code == Some(15u16),
        name@ == "KEY_ENTER"@ ==> code == Some(28u16),
        name@ == "KEY_BACKSPACE"@ ==> code == Some(14u16),
        name@ == "KEY_GRAVE"@ ==> code == Some(41u16),
        name@ == "KEY_INSERT"@ ==> code == Some(110u16),
        name@ == "KEY_DELETE"@ ==> code == Some(111u16),
        name@ == "KEY_HOME"@ ==> code == Some(102u16),
        name@ == "KEY_END"@ ==> code == Some(107u16),
        name@ == "KEY_PAGEUP"@ ==> code == Some(104u16),
        name@ == "KEY_PAGEDOWN"@ ==> code == Some(109u16),
        name@ == "KEY_DOWN"@ ==> code == Some(108u16),
        name@ == "KEY_LEFT"@ ==> code == Some(105u16),
        name@ == "KEY_RIGHT"@ ==> code == Some(106u16),
        name@ == "KEY_UP"@ ==> code == Some(103u16),
        name@ == "KEY_COMMA"@ ==> code == Some(51u16),
        name@ == "KEY_BACKSLASH"@ ==> code == Some(43u16),
        name@ == "KEY_SLASH"@ ==> code == Some(53u16),
        name@ == "KEY_LEFTBRACE"@ ==> code == Some(26u16),
        name@ == "KEY_RIGHTBRACE"@ ==> code == Some(27u16),
        name@ == "KEY_MINUS"@ ==> code == Some(12u16),
        name@ == "KEY_DOT"@ ==> code == Some(52u16),
        name@ == "KEY_EQUAL"@ ==> code == Some(13u16),
        name@ == "KEY_SEMICOLON"@ ==> code == Some(39u16),
        name@ == "KEY_F1"@ ==> code == Some(59u16),
        name@ == "KEY_F2"@ ==> code == Some(60u16),
        name@ == "KEY_F3"@ ==> code == Some(61u16),
        name@ == "KEY_F4"@ ==> code == Some(62u16),
        name@ == "KEY_F5"@ ==> code == Some(63u16),
        name@ == "KEY_F6"@ ==> code == Some(64u16),
        name@ == "KEY_F7"@ ==> code == Some(65u16),
        name@ == "KEY_F8"@ ==> code == Some(66u16),
        name@ == "KEY_F9"@ ==> code == Some(67u16),
        name@ == "KEY_F10"@ ==> code == Some(68u16),
        name@ == "KEY_F11"@ ==> code == Some(87u16),
        name@ == "KEY_F12"@ ==> code == Some(88u16),
        name@ == "KEY_0"@ ==> code == Some(11u16),
        name@ == "KEY_1"@ ==> code == Some(2u16),
        name@ == "KEY_2"@ ==> code == Some(3u16),
        name@ == "KEY_3"@ ==> code == Some(4u16),
        name@ == "KEY_4"@ ==> code == Some(5u16),
        name@ == "KEY_5"@ ==> code == Some(6u16),
        name@ == "KEY_6"@ ==> code == Some(7u16),
        name@ == "KEY_7"@ ==> code == Some(8u16),
        name@ == "KEY_8"@ ==> code == Some(9u16),
        name@ == "KEY_9"@ ==> code == Some(10u16),
        name@ == "KEY_UNKNOWN"@ ==> code == Some(240u16),
{
    <evdev::KeyCode as std::str::FromStr>::from_str(name).ok().map(|k| k.0)
}

/// Calls `evdev::KeyCode::code` on `KeyCode::KEY_UNKNOWN`, which evdev defines
/// as 240.
#[verifier::external_body]
fn unknown_key_code() -> (code: u16)
    ensures
        code == 240,
{
    evdev::KeyCode::KEY_UNKNOWN.code()
}

/// Calls `EvdevKeyCodeExt::to_key` (kbd_evdev) on the evdev key code and
/// formats the key with `kbd::Key`'s `Display`. The text is named
/// `kbd_key_label`.
#[verifier::external_body]
fn label_of_evdev_code(code: u16) -> (s: String)
    ensures
        s@ == kbd_key_label(code),
{
    format!("{}", evdev::KeyCode(code).to_key())
}

/// The name of the evdev `KeyCode` constant that a lowercase binding name
/// stands for; an unknown name stands for `KEY_UNKNOWN`.
pub open spec fn evdev_name_for(name: Seq<char>) -> Seq<char> {
    if name == "q"@ {
        "KEY_Q"@
    } else if name == "w"@ {
        "KEY_W"@
    } else if name == "e"@ {
        "KEY_E"@
    } else if name == "r"@ {
        "KEY_R"@
    } else if name == "t"@ {
        "KEY_T"@
    } else if name == "y"@ {
        "KEY_Y"@
    } else if name == "u"@ {
        "KEY_U"@
    } else if name == "i"@ {
        "KEY_I"@
    } else if name == "o"@ {
        "KEY_O"@
    } else if name == "p"@ {
        "KEY_P"@
    } else if name == "a"@ {
        "KEY_A"@
    } else if name == "s"@ {
        "KEY_S"@
    } else if name == "d"@ {
        "KEY_D"@
    } else if name == "f"@ {
        "KEY_F"@
    } else if name == "g"@ {
        "KEY_G"@
    } else if name == "h"@ {
        "KEY_H"@
    } else if name == "j"@ {
        "KEY_J"@
    } else if name == "k"@ {
        "KEY_K"@
    } else if name == "l"@ {
        "KEY_L"@
    } else if name == "z"@ {
        "KEY_Z"@
    } else if name == "x"@ {
        "KEY_X"@
    } else if name == "c"@ {
        "KEY_C"@
    } else if name == "v"@ {
        "KEY_V"@
    } else if name == "b"@ {
        "KEY_B"@
    } else if name == "n"@ {
        "KEY_N"@
    } else if name == "m"@ {
        "KEY_M"@
    } else if name == "space"@ {
        "KEY_SPACE"@
    } else if name == "escape"@ || name == "esc"@ {
        "KEY_ESC"@
    } else if name == "tab"@ {
        "KEY_TAB"@
    } else if name == "enter"@ || name == "return"@ {
        "KEY_ENTER"@
    } else if name == "backspace"@ {
        "KEY_BACKSPACE"@
    } else if name == "backtick"@ || name == "`"@ {
        "KEY_GRAVE"@
    } else if name == "insert"@ {
        "KEY_INSERT"@
    } else if name == "delete"@ {
        "KEY_DELETE"@
    } else if name == "home"@ {
        "KEY_HOME"@
    } else if name == "end"@ {
        "KEY_END"@
    } else if name == "pageup"@ {
        "KEY_PAGEUP"@
    } else if name == "pagedown"@ {
        "KEY_PAGEDOWN"@
    } else if name == "arrowdown"@ || name == "down"@ {
        "KEY_DOWN"@
    } else if name == "arrowleft"@ || name == "left"@ {
        "KEY_LEFT"@
    } else if name == "arrowright"@ || name == "right"@ {
        "KEY_RIGHT"@
    } else if name == "arrowup"@ || name == "up"@ {
        "KEY_UP"@
    } else if name == "comma"@ || name == ","@ {
        "KEY_COMMA"@
    } else if name == "backslash"@ || name == "\\"@ {
        "KEY_BACKSLASH"@
    } else if name == "slash"@ || name == "/"@ {
        "KEY_SLASH"@
    } else if name == "pipe"@ || name == "|"@ {
        "KEY_P"@
    } else if name == "openbracket"@ || name == "["@ {
        "KEY_LEFTBRACE"@
    } else if name == "closebracket"@ || name == "]"@ {
        "KEY_RIGHTBRACE"@
    } else if name == "minus"@ || name == "-"@ {
        "KEY_MINUS"@
    } else if name == "period"@ || name == "."@ {
        "KEY_DOT"@
    } else if name == "equals"@ || name == "="@ {
        "KEY_EQUAL"@
    } else if name == "semicolon"@ || name == ";"@ {
        "KEY_SEMICOLON"@
    } else if name == "f1"@ {
        "KEY_F1"@
    } else if name == "f2"@ {
        "KEY_F2"@
    } else if name == "f3"@ {
        "KEY_F3"@
    } else if name == "f4"@ {
        "KEY_F4"@
    } else if name == "f5"@ {
        "KEY_F5"@
    } else if name == "f6"@ {
        "KEY_F6"@
    } else if name == "f7"@ {
        "KEY_F7"@
    } else if name == "f8"@ {
        "KEY_F8"@
    } else if name == "f9"@ {
        "KEY_F9"@
    } else if name == "f10"@ {
        "KEY_F10"@
    } else if name == "f11"@ {
        "KEY_F11"@
    } else if name == "f12"@ {
        "KEY_F12"@
    } else if name == "num0"@ || name == "0"@ {
        "KEY_0"@
    } else if name == "num1"@ || name == "1"@ {
        "KEY_1"@
    } else if name == "num2"@ || name == "2"@ {
        "KEY_2"@
    } else if name == "num3"@ || name == "3"@ {
        "KEY_3"@
    } else if name == "num4"@ || name == "4"@ {
        "KEY_4"@
    } else if name == "num5"@ || name == "5"@ {
        "KEY_5"@
    } else if name == "num6"@ || name == "6"@ {
        "KEY_6"@
    } else if name == "num7"@ || name == "7"@ {
        "KEY_7"@
    } else if name == "num8"@ || name == "8"@ {
        "KEY_8"@
    } else if name == "num9"@ || name == "9"@ {
        "KEY_9"@
    } else {
        "KEY_UNKNOWN"@
    }
}

/// The evdev key code of the constant that a lowercase binding name stands
/// for; an unknown name stands for `KEY_UNKNOWN` (240).
pub open spec fn code_for_name(name: Seq<char>) -> u16 {
    if name == "q"@ {
        16
    } else if name == "w"@ {
        17
    } else if name == "e"@ {
        18
    } else if name == "r"@ {
        19
    } else if name == "t"@ {
        20
    } else if name == "y"@ {
        21
    } else if name == "u"@ {
        22
    } else if name == "i"@ {
        23
    } else if name == "o"@ {
        24
    } else if name == "p"@ {
        25
    } else if name == "a"@ {
        30
    } else if name == "s"@ {
        31
    } else if name == "d"@ {
        32
    } else if name == "f"@ {
        33
    } else if name == "g"@ {
        34
    } else if name == "h"@ {
        35
    } else if name == "j"@ {
        36
    } else if name == "k"@ {
        37
    } else if name == "l"@ {
        38
    } else if name == "z"@ {
        44
    } else if name == "x"@ {
        45
    } else if name == "c"@ {
        46
    } else if name == "v"@ {
        47
    } else if name == "b"@ {
        48
    } else if name == "n"@ {
        49
    } else if name == "m"@ {
        50
    } else if name == "space"@ {
        57
    } else if name == "escape"@ || name == "esc"@ {
        1
    } else if name == "tab"@ {
        15
    } else if name == "enter"@ || name == "return"@ {
        28
    } else if name == "backspace"@ {
        14
    } else if name == "backtick"@ || name == "`"@ {
        41
    } else if name == "insert"@ {
        110
    } else if name == "delete"@ {
        111
    } else if name == "home"@ {
        102
    } else if name == "end"@ {
        107
    } else if name == "pageup"@ {
        104
    } else if name == "pagedown"@ {
        109
    } else if name == "arrowdown"@ || name == "down"@ {
        108
    } else if name == "arrowleft"@ || name == "left"@ {
        105
    } else if name == "arrowright"@ || name == "right"@ {
        106
    } else if name == "arrowup"@ || name == "up"@ {
        103
    } else if name == "comma"@ || name == ","@ {
        51
    } else if name == "backslash"@ || name == "\\"@ {
        43
    } else if name == "slash"@ || name == "/"@ {
        53
    } else if name == "pipe"@ || name == "|"@ {
        25
    } else if name == "openbracket"@ || name == "["@ {
        26
    } else if name == "closebracket"@ || name == "]"@ {
        27
    } else if name == "minus"@ || name == "-"@ {
        12
    } else if name == "period"@ || name == "."@ {
        52
    } else if name == "equals"@ || name == "="@ {
        13
    } else if name == "semicolon"@ || name == ";"@ {
        39
    } else if name == "f1"@ {
        59
    } else if name == "f2"@ {
        60
    } else if name == "f3"@ {
        61
    } else if name == "f4"@ {
        62
    } else if name == "f5"@ {
        63
    } else if name == "f6"@ {
        64
    } else if name == "f7"@ {
        65
    } else if name == "f8"@ {
        66
    } else if name == "f9"@ {
        67
    } else if name == "f10"@ {
        68
    } else if name == "f11"@ {
        87
    } else if name == "f12"@ {
        88
    } else if name == "num0"@ || name == "0"@ {
        11
    } else if name == "num1"@ || name == "1"@ {
        2
    } else if name == "num2"@ || name == "2"@ {
        3
    } else if name == "num3"@ || name == "3"@ {
        4
    } else if name == "num4"@ || name == "4"@ {
        5
    } else if name == "num5"@ || name == "5"@ {
        6
    } else if name == "num6"@ || name == "6"@ {
        7
    } else if name == "num7"@ || name == "7"@ {
        8
    } else if name == "num8"@ || name == "8"@ {
        9
    } else if name == "num9"@ || name == "9"@ {
        10
    } else {
        240
    }
}

/// The evdev key code a binding name stands for, after lowercasing.
pub open spec fn parse_key_spec(key_str: Seq<char>) -> u16 {
    code_for_name(lowercase(key_str))
}

/// The evdev constant name a lowercase binding name stands for.
pub fn evdev_name(name: &str) -> (constant: &'static str)
    ensures
        constant@ == evdev_name_for(name@),
{
    if str_eq(name, "q") {
        "KEY_Q"
    } else if str_eq(name, "w") {
        "KEY_W"
    } else if str_eq(name, "e") {
        "KEY_E"
    } else if str_eq(name, "r") {
        "KEY_R"
    } else if str_eq(name, "t") {
        "KEY_T"
    } else if str_eq(name, "y") {
        "KEY_Y"
    } else if str_eq(name, "u") {
        "KEY_U"
    } else if str_eq(name, "i") {
        "KEY_I"
    } else if str_eq(name, "o") {
        "KEY_O"
    } else if str_eq(name, "p") {
        "KEY_P"
    } else if str_eq(name, "a") {
        "KEY_A"
    } else if str_eq(name, "s") {
        "KEY_S"
    } else if str_eq(name, "d") {
        "KEY_D"
    } else if str_eq(name, "f") {
        "KEY_F"
    } else if str_eq(name, "g") {
        "KEY_G"
    } else if str_eq(name, "h") {
        "KEY_H"
    } else if str_eq(name, "j") {
        "KEY_J"
    } else if str_eq(name, "k") {
        "KEY_K"
    } else if str_eq(name, "l") {
        "KEY_L"
    } else if str_eq(name, "z") {
        "KEY_Z"
    } else if str_eq(name, "x") {
        "KEY_X"
    } else if str_eq(name, "c") {
        "KEY_C"
    } else if str_eq(name, "v") {
        "KEY_V"
    } else if str_eq(name, "b") {
        "KEY_B"
    } else if str_eq(name, "n") {
        "KEY_N"
    } else if str_eq(name, "m") {
        "KEY_M"
    } else if str_eq(name, "space") {
        "KEY_SPACE"
    } else if str_eq(name, "escape") || str_eq(name, "esc") {
        "KEY_ESC"
    } else if str_eq(name, "tab") {
        "KEY_TAB"
    } else if str_eq(name, "enter") || str_eq(name, "return") {
        "KEY_ENTER"
    } else if str_eq(name, "backspace") {
        "KEY_BACKSPACE"
    } else if str_eq(name, "backtick") || str_eq(name, "`") {
        "KEY_GRAVE"
    } else if str_eq(name, "insert") {
        "KEY_INSERT"
    } else if str_eq(name, "delete") {
        "KEY_DELETE"
    } else if str_eq(name, "home") {
        "KEY_HOME"
    } else if str_eq(name, "end") {
        "KEY_END"
    } else if str_eq(name, "pageup") {
        "KEY_PAGEUP"
    } else if str_eq(name, "pagedown") {
        "KEY_PAGEDOWN"
    } else if str_eq(name, "arrowdown") || str_eq(name, "down") {
        "KEY_DOWN"
    } else if str_eq(name, "arrowleft") || str_eq(name, "left") {
        "KEY_LEFT"
    } else if str_eq(name, "arrowright") || str_eq(name, "right") {
        "KEY_RIGHT"
    } else if str_eq(name, "arrowup") || str_eq(name, "up") {
        "KEY_UP"
    } else if str_eq(name, "comma") || str_eq(name, ",") {
        "KEY_COMMA"
    } else if str_eq(name, "backslash") || str_eq(name, "\\") {
        "KEY_BACKSLASH"
    } else if str_eq(name, "slash") || str_eq(name, "/") {
        "KEY_SLASH"
    } else if str_eq(name, "pipe") || str_eq(name, "|") {
        "KEY_P"
    } else if str_eq(name, "openbracket") || str_eq(name, "[") {
        "KEY_LEFTBRACE"
    } else if str_eq(name, "closebracket") || str_eq(name, "]") {
        "KEY_RIGHTBRACE"
    } else if str_eq(name, "minus") || str_eq(name, "-") {
        "KEY_MINUS"
    } else if str_eq(name, "period") || str_eq(name, ".") {
        "KEY_DOT"
    } else if str_eq(name, "equals") || str_eq(name, "=") {
        "KEY_EQUAL"
    } else if str_eq(name, "semicolon") || str_eq(name, ";") {
        "KEY_SEMICOLON"
    } else if str_eq(name, "f1") {
        "KEY_F1"
    } else if str_eq(name, "f2") {
        "KEY_F2"
    } else if str_eq(name, "f3") {
        "KEY_F3"
    } else if str_eq(name, "f4") {
        "KEY_F4"
    } else if str_eq(name, "f5") {
        "KEY_F5"
    } else if str_eq(name, "f6") {
        "KEY_F6"
    } else if str_eq(name, "f7") {
        "KEY_F7"
    } else if str_eq(name, "f8") {
        "KEY_F8"
    } else if str_eq(name, "f9") {
        "KEY_F9"
    } else if str_eq(name, "f10") {
        "KEY_F10"
    } else if str_eq(name, "f11") {
        "KEY_F11"
    } else if str_eq(name, "f12") {
        "KEY_F12"
    } else if str_eq(name, "num0") || str_eq(name, "0") {
        "KEY_0"
    } else if str_eq(name, "num1") || str_eq(name, "1") {
        "KEY_1"
    } else if str_eq(name, "num2") || str_eq(name, "2") {
        "KEY_2"
    } else if str_eq(name, "num3") || str_eq(name, "3") {
        "KEY_3"
    } else if str_eq(name, "num4") || str_eq(name, "4") {
        "KEY_4"
    } else if str_eq(name, "num5") || str_eq(name, "5") {
        "KEY_5"
    } else if str_eq(name, "num6") || str_eq(name, "6") {
        "KEY_6"
    } else if str_eq(name, "num7") || str_eq(name, "7") {
        "KEY_7"
    } else if str_eq(name, "num8") || str_eq(name, "8") {
        "KEY_8"
    } else if str_eq(name, "num9") || str_eq(name, "9") {
        "KEY_9"
    } else {
        "KEY_UNKNOWN"
    }
}

/// The evdev key code a binding name stands for: the name is lowercased,
/// mapped to an evdev constant's name, and the constant's code is looked up in
/// evdev.
pub fn parse_key(key_str: &str) -> (code: u16)
    ensures
        code == parse_key_spec(key_str@),
{
    let lower = to_lowercase(key_str);
    match code_for_evdev_name(evdev_name(lower.as_str())) {
        Some(code) => code,
        None => unknown_key_code(),
    }
}

/// The label shown for an evdev key code, as kbd names the key.
pub fn key_code_to_str(key_code: u16) -> (s: String)
    ensures
        s@ == kbd_key_label(key_code),
{
    label_of_evdev_code(key_code)
}


/// The characters of the binding names in the table above.
proof fn lemma_table_names()
    ensures
        "q"@ == seq!['q'],
        "w"@ == seq!['w'],
        "e"@ == seq!['e'],
        "r"@ == seq!['r'],
        "t"@ == seq!['t'],
        "y"@ == seq!['y'],
        "u"@ == seq!['u'],
        "i"@ == seq!['i'],
        "o"@ == seq!['o'],
        "p"@ == seq!['p'],
        "a"@ == seq!['a'],
        "s"@ == seq!['s'],
        "d"@ == seq!['d'],
        "f"@ == seq!['f'],
        "g"@ == seq!['g'],
        "h"@ == seq!['h'],
        "j"@ == seq!['j'],
        "k"@ == seq!['k'],
        "l"@ == seq!['l'],
        "z"@ == seq!['z'],
        "x"@ == seq!['x'],
        "c"@ == seq!['c'],
        "v"@ == seq!['v'],
        "b"@ == seq!['b'],
        "n"@ == seq!['n'],
        "m"@ == seq!['m'],
        "space"@.len() == 5,
        "escape"@.len() == 6,
        "esc"@.len() == 3,
        "tab"@.len() == 3,
        "enter"@.len() == 5,
        "return"@.len() == 6,
        "backspace"@.len() == 9,
        "backtick"@.len() == 8,
        "`"@ == seq!['`'],
        "insert"@.len() == 6,
        "delete"@.len() == 6,
        "home"@.len() == 4,
        "end"@.len() == 3,
        "pageup"@.len() == 6,
        "pagedown"@.len() == 8,
        "arrowdown"@.len() == 9,
        "down"@.len() == 4,
        "arrowleft"@.len() == 9,
        "left"@.len() == 4,
        "arrowright"@.len() == 10,
        "right"@.len() == 5,
        "arrowup"@.len() == 7,
        "up"@.len() == 2,
        "comma"@.len() == 5,
        ","@ == seq![','],
        "backslash"@.len() == 9,
        "\\"@ == seq!['\\'],
        "slash"@.len() == 5,
        "/"@ == seq!['/'],
        "pipe"@.len() == 4,
        "|"@ == seq!['|'],
        "openbracket"@.len() == 11,
        "["@ == seq!['['],
        "closebracket"@.len() == 12,
        "]"@ == seq![']'],
        "minus"@.len() == 5,
        "-"@ == seq!['-'],
        "period"@.len() == 6,
        "."@ == seq!['.'],
        "equals"@.len() == 6,
        "="@ == seq!['='],
        "semicolon"@.len() == 9,
        ";"@ == seq![';'],
        "f1"@.len() == 2,
        "f2"@.len() == 2,
        "f3"@.len() == 2,
        "f4"@.len() == 2,
        "f5"@.len() == 2,
        "f6"@.len() == 2,
        "f7"@.len() == 2,
        "f8"@.len() == 2,
        "f9"@.len() == 2,
        "f10"@.len() == 3,
        "f11"@.len() == 3,
        "f12"@.len() == 3,
        "num0"@.len() == 4,
        "0"@ == seq!['0'],
        "num1"@.len() == 4,
        "1"@ == seq!['1'],
        "num2"@.len() == 4,
        "2"@ == seq!['2'],
        "num3"@.len() == 4,
        "3"@ == seq!['3'],
        "num4"@.len() == 4,
        "4"@ == seq!['4'],
        "num5"@.len() == 4,
        "5"@ == seq!['5'],
        "num6"@.len() == 4,
        "6"@ == seq!['6'],
        "num7"@.len() == 4,
        "7"@ == seq!['7'],
        "num8"@.len() == 4,
        "8"@ == seq!['8'],
        "num9"@.len() == 4,
        "9"@ == seq!['9'],
{
    reveal_strlit("q");
    assert("q"@ =~= seq!['q']);
    reveal_strlit("w");
    assert("w"@ =~= seq!['w']);
    reveal_strlit("e");
    assert("e"@ =~= seq!['e']);
    reveal_strlit("r");
    assert("r"@ =~= seq!['r']);
    reveal_strlit("t");
    assert("t"@ =~= seq!['t']);
    reveal_strlit("y");
    assert("y"@ =~= seq!['y']);
    reveal_strlit("u");
    assert("u"@ =~= seq!['u']);
    reveal_strlit("i");
    assert("i"@ =~= seq!['i']);
    reveal_strlit("o");
    assert("o"@ =~= seq!['o']);
    reveal_strlit("p");
    assert("p"@ =~= seq!['p']);
    reveal_strlit("a");
    assert("a"@ =~= seq!['a']);
    reveal_strlit("s");
    assert("s"@ =~= seq!['s']);
    reveal_strlit("d");
    assert("d"@ =~= seq!['d']);
    reveal_strlit("f");
    assert("f"@ =~= seq!['f']);
    reveal_strlit("g");
    assert("g"@ =~= seq!['g']);
    reveal_strlit("h");
    assert("h"@ =~= seq!['h']);
    reveal_strlit("j");
    assert("j"@ =~= seq!['j']);
    reveal_strlit("k");
    assert("k"@ =~= seq!['k']);
    reveal_strlit("l");
    assert("l"@ =~= seq!['l']);
    reveal_strlit("z");
    assert("z"@ =~= seq!['z']);
    reveal_strlit("x");
    assert("x"@ =~= seq!['x']);
    reveal_strlit("c");
    assert("c"@ =~= seq!['c']);
    reveal_strlit("v");
    assert("v"@ =~= seq!['v']);
    reveal_strlit("b");
    assert("b"@ =~= seq!['b']);
    reveal_strlit("n");
    assert("n"@ =~= seq!['n']);
    reveal_strlit("m");
    assert("m"@ =~= seq!['m']);
    reveal_strlit("space");
    reveal_strlit("escape");
    reveal_strlit("esc");
    reveal_strlit("tab");
    reveal_strlit("enter");
    reveal_strlit("return");
    reveal_strlit("backspace");
    reveal_strlit("backtick");
    reveal_strlit("`");
    assert("`"@ =~= seq!['`']);
    reveal_strlit("insert");
    reveal_strlit("delete");
    reveal_strlit("home");
    reveal_strlit("end");
    reveal_strlit("pageup");
    reveal_strlit("pagedown");
    reveal_strlit("arrowdown");
    reveal_strlit("down");
    reveal_strlit("arrowleft");
    reveal_strlit("left");
    reveal_strlit("arrowright");
    reveal_strlit("right");
    reveal_strlit("arrowup");
    reveal_strlit("up");
    reveal_strlit("comma");
    reveal_strlit(",");
    assert(","@ =~= seq![',']);
    reveal_strlit("backslash");
    reveal_strlit("\\");
    assert("\\"@ =~= seq!['\\']);
    reveal_strlit("slash");
    reveal_strlit("/");
    assert("/"@ =~= seq!['/']);
    reveal_strlit("pipe");
    reveal_strlit("|");
    assert("|"@ =~= seq!['|']);
    reveal_strlit("openbracket");
    reveal_strlit("[");
    assert("["@ =~= seq!['[']);
    reveal_strlit("closebracket");
    reveal_strlit("]");
    assert("]"@ =~= seq![']']);
    reveal_strlit("minus");
    reveal_strlit("-");
    assert("-"@ =~= seq!['-']);
    reveal_strlit("period");
    reveal_strlit(".");
    assert("."@ =~= seq!['.']);
    reveal_strlit("equals");
    reveal_strlit("=");
    assert("="@ =~= seq!['=']);
    reveal_strlit("semicolon");
    reveal_strlit(";");
    assert(";"@ =~= seq![';']);
    reveal_strlit("f1");
    reveal_strlit("f2");
    reveal_strlit("f3");
    reveal_strlit("f4");
    reveal_strlit("f5");
    reveal_strlit("f6");
    reveal_strlit("f7");
    reveal_strlit("f8");
    reveal_strlit("f9");
    reveal_strlit("f10");
    reveal_strlit("f11");
    reveal_strlit("f12");
    reveal_strlit("num0");
    reveal_strlit("0");
    assert("0"@ =~= seq!['0']);
    reveal_strlit("num1");
    reveal_strlit("1");
    assert("1"@ =~= seq!['1']);
    reveal_strlit("num2");
    reveal_strlit("2");
    assert("2"@ =~= seq!['2']);
    reveal_strlit("num3");
    reveal_strlit("3");
    assert("3"@ =~= seq!['3']);
    reveal_strlit("num4");
    reveal_strlit("4");
    assert("4"@ =~= seq!['4']);
    reveal_strlit("num5");
    reveal_strlit("5");
    assert("5"@ =~= seq!['5']);
    reveal_strlit("num6");
    reveal_strlit("6");
    assert("6"@ =~= seq!['6']);
    reveal_strlit("num7");
    reveal_strlit("7");
    assert("7"@ =~= seq!['7']);
    reveal_strlit("num8");
    reveal_strlit("8");
    assert("8"@ =~= seq!['8']);
    reveal_strlit("num9");
    reveal_strlit("9");
    assert("9"@ =~= seq!['9']);
}

/// The evdev code of the key of a lowercase letter.
pub open spec fn letter_code(c: char) -> u16 {
    if c == 'a' {
        30
    } else if c == 'b' {
        48
    } else if c == 'c' {
        46
    } else if c == 'd' {
        32
    } else if c == 'e' {
        18
    } else if c == 'f' {
        33
    } else if c == 'g' {
        34
    } else if c == 'h' {
        35
    } else if c == 'i' {
        23
    } else if c == 'j' {
        36
    } else if c == 'k' {
        37
    } else if c == 'l' {
        38
    } else if c == 'm' {
        50
    } else if c == 'n' {
        49
    } else if c == 'o' {
        24
    } else if c == 'p' {
        25
    } else if c == 'q' {
        16
    } else if c == 'r' {
        19
    } else if c == 's' {
        31
    } else if c == 't' {
        20
    } else if c == 'u' {
        22
    } else if c == 'v' {
        47
    } else if c == 'w' {
        17
    } else if c == 'x' {
        45
    } else if c == 'y' {
        21
    } else if c == 'z' {
        44
    } else {
        240
    }
}

/// A lowercase letter names the key of that letter.
pub proof fn lemma_letter_code(a: char)
    requires
        'a' <= a <= 'z',
    ensures
        code_for_name(seq![a]) == letter_code(a),
{
    lemma_table_names();
    assert(seq![a].len() == 1 && seq![a][0] == a);
    if a == 'a' {
        assert(seq![a] =~= seq!['a']);
    }
    if a == 'b' {
        assert(seq![a] =~= seq!['b']);
    }
    if a == 'c' {
        assert(seq![a] =~= seq!['c']);
    }
    if a == 'd' {
        assert(seq![a] =~= seq!['d']);
    }
    if a == 'e' {
        assert(seq![a] =~= seq!['e']);
    }
    if a == 'f' {
        assert(seq![a] =~= seq!['f']);
    }
    if a == 'g' {
        assert(seq![a] =~= seq!['g']);
    }
    if a == 'h' {
        assert(seq![a] =~= seq!['h']);
    }
    if a == 'i' {
        assert(seq![a] =~= seq!['i']);
    }
    if a == 'j' {
        assert(seq![a] =~= seq!['j']);
    }
    if a == 'k' {
        assert(seq![a] =~= seq!['k']);
    }
    if a == 'l' {
        assert(seq![a] =~= seq!['l']);
    }
    if a == 'm' {
        assert(seq![a] =~= seq!['m']);
    }
    if a == 'n' {
        assert(seq![a] =~= seq!['n']);
    }
    if a == 'o' {
        assert(seq![a] =~= seq!['o']);
    }
    if a == 'p' {
        assert(seq![a] =~= seq!['p']);
    }
    if a == 'q' {
        assert(seq![a] =~= seq!['q']);
    }
    if a == 'r' {
        assert(seq![a] =~= seq!['r']);
    }
    if a == 's' {
        assert(seq![a] =~= seq!['s']);
    }
    if a == 't' {
        assert(seq![a] =~= seq!['t']);
    }
    if a == 'u' {
        assert(seq![a] =~= seq!['u']);
    }
    if a == 'v' {
        assert(seq![a] =~= seq!['v']);
    }
    if a == 'w' {
        assert(seq![a] =~= seq!['w']);
    }
    if a == 'x' {
        assert(seq![a] =~= seq!['x']);
    }
    if a == 'y' {
        assert(seq![a] =~= seq!['y']);
    }
    if a == 'z' {
        assert(seq![a] =~= seq!['z']);
    }
}

/// Each lowercase letter stands for its own key: the 26 letters get
/// 26 different codes, none of them that of `KEY_UNKNOWN`.
pub proof fn lemma_letters_distinct(a: char, b: char)
    requires
        'a' <= a <= 'z',
        'a' <= b <= 'z',
        a != b,
    ensures
        code_for_name(seq![a]) == letter_code(a),
        code_for_name(seq![a]) != code_for_name(seq![b]),
        code_for_name(seq![a]) != 240,
{
    lemma_letter_code(a);
    lemma_letter_code(b);
}

/// Binding names are read without regard to case: an ASCII name stands for
/// the same key as its lowercase.
pub proof fn lemma_case_insensitive(key_str: Seq<char>)
    requires
        is_ascii_chars(key_str),
    ensures
        parse_key_spec(key_str) == parse_key_spec(ascii_lowercase(key_str)),
{
    lemma_ascii_lowercase_idempotent(key_str);
}

/// Binding names are read without regard to case, for any text whose
/// lowercase is its own lowercase: it stands for the same key as its
/// lowercase.
pub proof fn lemma_case_insensitive_where_lowercase_settles(key_str: Seq<char>)
    requires
        lowercase(lowercase(key_str)) == lowercase(key_str),
    ensures
        parse_key_spec(key_str) == parse_key_spec(lowercase(key_str)),
{
}

/// The spelling of every name in the table and of the evdev constant names
/// that the plain names stand for.
proof fn lemma_table_spellings()
    ensures
        "q"@ == seq!['q'],
        "w"@ == seq!['w'],
        "e"@ == seq!['e'],
        "r"@ == seq!['r'],
        "t"@ == seq!['t'],
        "y"@ == seq!['y'],
        "u"@ == seq!['u'],
        "i"@ == seq!['i'],
        "o"@ == seq!['o'],
        "p"@ == seq!['p'],
        "a"@ == seq!['a'],
        "s"@ == seq!['s'],
        "d"@ == seq!['d'],
        "f"@ == seq!['f'],
        "g"@ == seq!['g'],
        "h"@ == seq!['h'],
        "j"@ == seq!['j'],
        "k"@ == seq!['k'],
        "l"@ == seq!['l'],
        "z"@ == seq!['z'],
        "x"@ == seq!['x'],
        "c"@ == seq!['c'],
        "v"@ == seq!['v'],
        "b"@ == seq!['b'],
        "n"@ == seq!['n'],
        "m"@ == seq!['m'],
        "space"@ == seq!['s', 'p', 'a', 'c', 'e'],
        "escape"@ == seq!['e', 's', 'c', 'a', 'p', 'e'],
        "esc"@ == seq!['e', 's', 'c'],
        "tab"@ == seq!['t', 'a', 'b'],
        "enter"@ == seq!['e', 'n', 't', 'e', 'r'],
        "return"@ == seq!['r', 'e', 't', 'u', 'r', 'n'],
        "backspace"@ == seq!['b', 'a', 'c', 'k', 's', 'p', 'a', 'c', 'e'],
        "backtick"@ == seq!['b', 'a', 'c', 'k', 't', 'i', 'c', 'k'],
        "`"@ == seq!['`'],
        "insert"@ == seq!['i', 'n', 's', 'e', 'r', 't'],
        "delete"@ == seq!['d', 'e', 'l', 'e', 't', 'e'],
        "home"@ == seq!['h', 'o', 'm', 'e'],
        "end"@ == seq!['e', 'n', 'd'],
        "pageup"@ == seq!['p', 'a', 'g', 'e', 'u', 'p'],
        "pagedown"@ == seq!['p', 'a', 'g', 'e', 'd', 'o', 'w', 'n'],
        "arrowdown"@ == seq!['a', 'r', 'r', 'o', 'w', 'd', 'o', 'w', 'n'],
        "down"@ == seq!['d', 'o', 'w', 'n'],
        "arrowleft"@ == seq!['a', 'r', 'r', 'o', 'w', 'l', 'e', 'f', 't'],
        "left"@ == seq!['l', 'e', 'f', 't'],
        "arrowright"@ == seq!['a', 'r', 'r', 'o', 'w', 'r', 'i', 'g', 'h', 't'],
        "right"@ == seq!['r', 'i', 'g', 'h', 't'],
        "arrowup"@ == seq!['a', 'r', 'r', 'o', 'w', 'u', 'p'],
        "up"@ == seq!['u', 'p'],
        "comma"@ == seq!['c', 'o', 'm', 'm', 'a'],
        ","@ == seq![','],
        "backslash"@ == seq!['b', 'a', 'c', 'k', 's', 'l', 'a', 's', 'h'],
        "\\"@ == seq!['\\'],
        "slash"@ == seq!['s', 'l', 'a', 's', 'h'],
        "/"@ == seq!['/'],
        "pipe"@ == seq!['p', 'i', 'p', 'e'],
        "|"@ == seq!['|'],
        "openbracket"@ == seq!['o', 'p', 'e', 'n', 'b', 'r', 'a', 'c', 'k', 'e', 't'],
        "["@ == seq!['['],
        "closebracket"@ == seq!['c', 'l', 'o', 's', 'e', 'b', 'r', 'a', 'c', 'k', 'e', 't'],
        "]"@ == seq![']'],
        "minus"@ == seq!['m', 'i', 'n', 'u', 's'],
        "-"@ == seq!['-'],
        "period"@ == seq!['p', 'e', 'r', 'i', 'o', 'd'],
        "."@ == seq!['.'],
        "equals"@ == seq!['e', 'q', 'u', 'a', 'l', 's'],
        "="@ == seq!['='],
        "semicolon"@ == seq!['s', 'e', 'm', 'i', 'c', 'o', 'l', 'o', 'n'],
        ";"@ == seq![';'],
        "f1"@ == seq!['f', '1'],
        "f2"@ == seq!['f', '2'],
        "f3"@ == seq!['f', '3'],
        "f4"@ == seq!['f', '4'],
        "f5"@ == seq!['f', '5'],
        "f6"@ == seq!['f', '6'],
        "f7"@ == seq!['f', '7'],
        "f8"@ == seq!['f', '8'],
        "f9"@ == seq!['f', '9'],
        "f10"@ == seq!['f', '1', '0'],
        "f11"@ == seq!['f', '1', '1'],
        "f12"@ == seq!['f', '1', '2'],
        "num0"@ == seq!['n', 'u', 'm', '0'],
        "0"@ == seq!['0'],
        "num1"@ == seq!['n', 'u', 'm', '1'],
        "1"@ == seq!['1'],
        "num2"@ == seq!['n', 'u', 'm', '2'],
        "2"@ == seq!['2'],
        "num3"@ == seq!['n', 'u', 'm', '3'],
        "3"@ == seq!['3'],
        "num4"@ == seq!['n', 'u', 'm', '4'],
        "4"@ == seq!['4'],
        "num5"@ == seq!['n', 'u', 'm', '5'],
        "5"@ == seq!['5'],
        "num6"@ == seq!['n', 'u', 'm', '6'],
        "6"@ == seq!['6'],
        "num7"@ == seq!['n', 'u', 'm', '7'],
        "7"@ == seq!['7'],
        "num8"@ == seq!['n', 'u', 'm', '8'],
        "8"@ == seq!['8'],
        "num9"@ == seq!['n', 'u', 'm', '9'],
        "9"@ == seq!['9'],
        "KEY_SPACE"@ == seq!['K', 'E', 'Y', '_', 'S', 'P', 'A', 'C', 'E'],
        "KEY_ESC"@ == seq!['K', 'E', 'Y', '_', 'E', 'S', 'C'],
        "KEY_TAB"@ == seq!['K', 'E', 'Y', '_', 'T', 'A', 'B'],
        "KEY_ENTER"@ == seq!['K', 'E', 'Y', '_', 'E', 'N', 'T', 'E', 'R'],
        "KEY_BACKSPACE"@ == seq!['K', 'E', 'Y', '_', 'B', 'A', 'C', 'K', 'S', 'P', 'A', 'C', 'E'],
        "KEY_INSERT"@ == seq!['K', 'E', 'Y', '_', 'I', 'N', 'S', 'E', 'R', 'T'],
        "KEY_DELETE"@ == seq!['K', 'E', 'Y', '_', 'D', 'E', 'L', 'E', 'T', 'E'],
        "KEY_HOME"@ == seq!['K', 'E', 'Y', '_', 'H', 'O', 'M', 'E'],
        "KEY_END"@ == seq!['K', 'E', 'Y', '_', 'E', 'N', 'D'],
        "KEY_PAGEUP"@ == seq!['K', 'E', 'Y', '_', 'P', 'A', 'G', 'E', 'U', 'P'],
        "KEY_PAGEDOWN"@ == seq!['K', 'E', 'Y', '_', 'P', 'A', 'G', 'E', 'D', 'O', 'W', 'N'],
        "KEY_DOWN"@ == seq!['K', 'E', 'Y', '_', 'D', 'O', 'W', 'N'],
        "KEY_LEFT"@ == seq!['K', 'E', 'Y', '_', 'L', 'E', 'F', 'T'],
        "KEY_RIGHT"@ == seq!['K', 'E', 'Y', '_', 'R', 'I', 'G', 'H', 'T'],
        "KEY_UP"@ == seq!['K', 'E', 'Y', '_', 'U', 'P'],
        "KEY_COMMA"@ == seq!['K', 'E', 'Y', '_', 'C', 'O', 'M', 'M', 'A'],
        "KEY_BACKSLASH"@ == seq!['K', 'E', 'Y', '_', 'B', 'A', 'C', 'K', 'S', 'L', 'A', 'S', 'H'],
        "KEY_SLASH"@ == seq!['K', 'E', 'Y', '_', 'S', 'L', 'A', 'S', 'H'],
        "KEY_MINUS"@ == seq!['K', 'E', 'Y', '_', 'M', 'I', 'N', 'U', 'S'],
        "KEY_SEMICOLON"@ == seq!['K', 'E', 'Y', '_', 'S', 'E', 'M', 'I', 'C', 'O', 'L', 'O', 'N'],
        "KEY_F1"@ == seq!['K', 'E', 'Y', '_', 'F', '1'],
        "KEY_F2"@ == seq!['K', 'E', 'Y', '_', 'F', '2'],
        "KEY_F3"@ == seq!['K', 'E', 'Y', '_', 'F', '3'],
        "KEY_F4"@ == seq!['K', 'E', 'Y', '_', 'F', '4'],
        "KEY_F5"@ == seq!['K', 'E', 'Y', '_', 'F', '5'],
        "KEY_F6"@ == seq!['K', 'E', 'Y', '_', 'F', '6'],
        "KEY_F7"@ == seq!['K', 'E', 'Y', '_', 'F', '7'],
        "KEY_F8"@ == seq!['K', 'E', 'Y', '_', 'F', '8'],
        "KEY_F9"@ == seq!['K', 'E', 'Y', '_', 'F', '9'],
        "KEY_F10"@ == seq!['K', 'E', 'Y', '_', 'F', '1', '0'],
        "KEY_F11"@ == seq!['K', 'E', 'Y', '_', 'F', '1', '1'],
        "KEY_F12"@ == seq!['K', 'E', 'Y', '_', 'F', '1', '2'],
        "KEY_A"@ == seq!['K', 'E', 'Y', '_', 'A'],
        "KEY_B"@ == seq!['K', 'E', 'Y', '_', 'B'],
        "KEY_C"@ == seq!['K', 'E', 'Y', '_', 'C'],
        "KEY_D"@ == seq!['K', 'E', 'Y', '_', 'D'],
        "KEY_E"@ == seq!['K', 'E', 'Y', '_', 'E'],
        "KEY_F"@ == seq!['K', 'E', 'Y', '_', 'F'],
        "KEY_G"@ == seq!['K', 'E', 'Y', '_', 'G'],
        "KEY_H"@ == seq!['K', 'E', 'Y', '_', 'H'],
        "KEY_I"@ == seq!['K', 'E', 'Y', '_', 'I'],
        "KEY_J"@ == seq!['K', 'E', 'Y', '_', 'J'],
        "KEY_K"@ == seq!['K', 'E', 'Y', '_', 'K'],
        "KEY_L"@ == seq!['K', 'E', 'Y', '_', 'L'],
        "KEY_M"@ == seq!['K', 'E', 'Y', '_', 'M'],
        "KEY_N"@ == seq!['K', 'E', 'Y', '_', 'N'],
        "KEY_O"@ == seq!['K', 'E', 'Y', '_', 'O'],
        "KEY_P"@ == seq!['K', 'E', 'Y', '_', 'P'],
        "KEY_Q"@ == seq!['K', 'E', 'Y', '_', 'Q'],
        "KEY_R"@ == seq!['K', 'E', 'Y', '_', 'R'],
        "KEY_S"@ == seq!['K', 'E', 'Y', '_', 'S'],
        "KEY_T"@ == seq!['K', 'E', 'Y', '_', 'T'],
        "KEY_U"@ == seq!['K', 'E', 'Y', '_', 'U'],
        "KEY_V"@ == seq!['K', 'E', 'Y', '_', 'V'],
        "KEY_W"@ == seq!['K', 'E', 'Y', '_', 'W'],
        "KEY_X"@ == seq!['K', 'E', 'Y', '_', 'X'],
        "KEY_Y"@ == seq!['K', 'E', 'Y', '_', 'Y'],
        "KEY_Z"@ == seq!['K', 'E', 'Y', '_', 'Z'],
        "KEY_0"@ == seq!['K', 'E', 'Y', '_', '0'],
        "KEY_1"@ == seq!['K', 'E', 'Y', '_', '1'],
        "KEY_2"@ == seq!['K', 'E', 'Y', '_', '2'],
        "KEY_3"@ == seq!['K', 'E', 'Y', '_', '3'],
        "KEY_4"@ == seq!['K', 'E', 'Y', '_', '4'],
        "KEY_5"@ == seq!['K', 'E', 'Y', '_', '5'],
        "KEY_6"@ == seq!['K', 'E', 'Y', '_', '6'],
        "KEY_7"@ == seq!['K', 'E', 'Y', '_', '7'],
        "KEY_8"@ == seq!['K', 'E', 'Y', '_', '8'],
        "KEY_9"@ == seq!['K', 'E', 'Y', '_', '9'],
        "KEY_"@ == seq!['K', 'E', 'Y', '_'],
{
    reveal_strlit("q");
    assert("q"@ =~= seq!['q']);
    reveal_strlit("w");
    assert("w"@ =~= seq!['w']);
    reveal_strlit("e");
    assert("e"@ =~= seq!['e']);
    reveal_strlit("r");
    assert("r"@ =~= seq!['r']);
    reveal_strlit("t");
    assert("t"@ =~= seq!['t']);
    reveal_strlit("y");
    assert("y"@ =~= seq!['y']);
    reveal_strlit("u");
    assert("u"@ =~= seq!['u']);
    reveal_strlit("i");
    assert("i"@ =~= seq!['i']);
    reveal_strlit("o");
    assert("o"@ =~= seq!['o']);
    reveal_strlit("p");
    assert("p"@ =~= seq!['p']);
    reveal_strlit("a");
    assert("a"@ =~= seq!['a']);
    reveal_strlit("s");
    assert("s"@ =~= seq!['s']);
    reveal_strlit("d");
    assert("d"@ =~= seq!['d']);
    reveal_strlit("f");
    assert("f"@ =~= seq!['f']);
    reveal_strlit("g");
    assert("g"@ =~= seq!['g']);
    reveal_strlit("h");
    assert("h"@ =~= seq!['h']);
    reveal_strlit("j");
    assert("j"@ =~= seq!['j']);
    reveal_strlit("k");
    assert("k"@ =~= seq!['k']);
    reveal_strlit("l");
    assert("l"@ =~= seq!['l']);
    reveal_strlit("z");
    assert("z"@ =~= seq!['z']);
    reveal_strlit("x");
    assert("x"@ =~= seq!['x']);
    reveal_strlit("c");
    assert("c"@ =~= seq!['c']);
    reveal_strlit("v");
    assert("v"@ =~= seq!['v']);
    reveal_strlit("b");
    assert("b"@ =~= seq!['b']);
    reveal_strlit("n");
    assert("n"@ =~= seq!['n']);
    reveal_strlit("m");
    assert("m"@ =~= seq!['m']);
    reveal_strlit("space");
    assert("space"@ =~= seq!['s', 'p', 'a', 'c', 'e']);
    reveal_strlit("escape");
    assert("escape"@ =~= seq!['e', 's', 'c', 'a', 'p', 'e']);
    reveal_strlit("esc");
    assert("esc"@ =~= seq!['e', 's', 'c']);
    reveal_strlit("tab");
    assert("tab"@ =~= seq!['t', 'a', 'b']);
    reveal_strlit("enter");
    assert("enter"@ =~= seq!['e', 'n', 't', 'e', 'r']);
    reveal_strlit("return");
    assert("return"@ =~= seq!['r', 'e', 't', 'u', 'r', 'n']);
    reveal_strlit("backspace");
    assert("backspace"@ =~= seq!['b', 'a', 'c', 'k', 's', 'p', 'a', 'c', 'e']);
    reveal_strlit("backtick");
    assert("backtick"@ =~= seq!['b', 'a', 'c', 'k', 't', 'i', 'c', 'k']);
    reveal_strlit("`");
    assert("`"@ =~= seq!['`']);
    reveal_strlit("insert");
    assert("insert"@ =~= seq!['i', 'n', 's', 'e', 'r', 't']);
    reveal_strlit("delete");
    assert("delete"@ =~= seq!['d', 'e', 'l', 'e', 't', 'e']);
    reveal_strlit("home");
    assert("home"@ =~= seq!['h', 'o', 'm', 'e']);
    reveal_strlit("end");
    assert("end"@ =~= seq!['e', 'n', 'd']);
    reveal_strlit("pageup");
    assert("pageup"@ =~= seq!['p', 'a', 'g', 'e', 'u', 'p']);
    reveal_strlit("pagedown");
    assert("pagedown"@ =~= seq!['p', 'a', 'g', 'e', 'd', 'o', 'w', 'n']);
    reveal_strlit("arrowdown");
    assert("arrowdown"@ =~= seq!['a', 'r', 'r', 'o', 'w', 'd', 'o', 'w', 'n']);
    reveal_strlit("down");
    assert("down"@ =~= seq!['d', 'o', 'w', 'n']);
    reveal_strlit("arrowleft");
    assert("arrowleft"@ =~= seq!['a', 'r', 'r', 'o', 'w', 'l', 'e', 'f', 't']);
    reveal_strlit("left");
    assert("left"@ =~= seq!['l', 'e', 'f', 't']);
    reveal_strlit("arrowright");
    assert("arrowright"@ =~= seq!['a', 'r', 'r', 'o', 'w', 'r', 'i', 'g', 'h', 't']);
    reveal_strlit("right");
    assert("right"@ =~= seq!['r', 'i', 'g', 'h', 't']);
    reveal_strlit("arrowup");
    assert("arrowup"@ =~= seq!['a', 'r', 'r', 'o', 'w', 'u', 'p']);
    reveal_strlit("up");
    assert("up"@ =~= seq!['u', 'p']);
    reveal_strlit("comma");
    assert("comma"@ =~= seq!['c', 'o', 'm', 'm', 'a']);
    reveal_strlit(",");
    assert(","@ =~= seq![',']);
    reveal_strlit("backslash");
    assert("backslash"@ =~= seq!['b', 'a', 'c', 'k', 's', 'l', 'a', 's', 'h']);
    reveal_strlit("\\");
    assert("\\"@ =~= seq!['\\']);
    reveal_strlit("slash");
    assert("slash"@ =~= seq!['s', 'l', 'a', 's', 'h']);
    reveal_strlit("/");
    assert("/"@ =~= seq!['/']);
    reveal_strlit("pipe");
    assert("pipe"@ =~= seq!['p', 'i', 'p', 'e']);
    reveal_strlit("|");
    assert("|"@ =~= seq!['|']);
    reveal_strlit("openbracket");
    assert("openbracket"@ =~= seq!['o', 'p', 'e', 'n', 'b', 'r', 'a', 'c', 'k', 'e', 't']);
    reveal_strlit("[");
    assert("["@ =~= seq!['[']);
    reveal_strlit("closebracket");
    assert("closebracket"@ =~= seq!['c', 'l', 'o', 's', 'e', 'b', 'r', 'a', 'c', 'k', 'e', 't']);
    reveal_strlit("]");
    assert("]"@ =~= seq![']']);
    reveal_strlit("minus");
    assert("minus"@ =~= seq!['m', 'i', 'n', 'u', 's']);
    reveal_strlit("-");
    assert("-"@ =~= seq!['-']);
    reveal_strlit("period");
    assert("period"@ =~= seq!['p', 'e', 'r', 'i', 'o', 'd']);
    reveal_strlit(".");
    assert("."@ =~= seq!['.']);
    reveal_strlit("equals");
    assert("equals"@ =~= seq!['e', 'q', 'u', 'a', 'l', 's']);
    reveal_strlit("=");
    assert("="@ =~= seq!['=']);
    reveal_strlit("semicolon");
    assert("semicolon"@ =~= seq!['s', 'e', 'm', 'i', 'c', 'o', 'l', 'o', 'n']);
    reveal_strlit(";");
    assert(";"@ =~= seq![';']);
    reveal_strlit("f1");
    assert("f1"@ =~= seq!['f', '1']);
    reveal_strlit("f2");
    assert("f2"@ =~= seq!['f', '2']);
    reveal_strlit("f3");
    assert("f3"@ =~= seq!['f', '3']);
    reveal_strlit("f4");
    assert("f4"@ =~= seq!['f', '4']);
    reveal_strlit("f5");
    assert("f5"@ =~= seq!['f', '5']);
    reveal_strlit("f6");
    assert("f6"@ =~= seq!['f', '6']);
    reveal_strlit("f7");
    assert("f7"@ =~= seq!['f', '7']);
    reveal_strlit("f8");
    assert("f8"@ =~= seq!['f', '8']);
    reveal_strlit("f9");
    assert("f9"@ =~= seq!['f', '9']);
    reveal_strlit("f10");
    assert("f10"@ =~= seq!['f', '1', '0']);
    reveal_strlit("f11");
    assert("f11"@ =~= seq!['f', '1', '1']);
    reveal_strlit("f12");
    assert("f12"@ =~= seq!['f', '1', '2']);
    reveal_strlit("num0");
    assert("num0"@ =~= seq!['n', 'u', 'm', '0']);
    reveal_strlit("0");
    assert("0"@ =~= seq!['0']);
    reveal_strlit("num1");
    assert("num1"@ =~= seq!['n', 'u', 'm', '1']);
    reveal_strlit("1");
    assert("1"@ =~= seq!['1']);
    reveal_strlit("num2");
    assert("num2"@ =~= seq!['n', 'u', 'm', '2']);
    reveal_strlit("2");
    assert("2"@ =~= seq!['2']);
    reveal_strlit("num3");
    assert("num3"@ =~= seq!['n', 'u', 'm', '3']);
    reveal_strlit("3");
    assert("3"@ =~= seq!['3']);
    reveal_strlit("num4");
    assert("num4"@ =~= seq!['n', 'u', 'm', '4']);
    reveal_strlit("4");
    assert("4"@ =~= seq!['4']);
    reveal_strlit("num5");
    assert("num5"@ =~= seq!['n', 'u', 'm', '5']);
    reveal_strlit("5");
    assert("5"@ =~= seq!['5']);
    reveal_strlit("num6");
    assert("num6"@ =~= seq!['n', 'u', 'm', '6']);
    reveal_strlit("6");
    assert("6"@ =~= seq!['6']);
    reveal_strlit("num7");
    assert("num7"@ =~= seq!['n', 'u', 'm', '7']);
    reveal_strlit("7");
    assert("7"@ =~= seq!['7']);
    reveal_strlit("num8");
    assert("num8"@ =~= seq!['n', 'u', 'm', '8']);
    reveal_strlit("8");
    assert("8"@ =~= seq!['8']);
    reveal_strlit("num9");
    assert("num9"@ =~= seq!['n', 'u', 'm', '9']);
    reveal_strlit("9");
    assert("9"@ =~= seq!['9']);
    reveal_strlit("KEY_SPACE");
    assert("KEY_SPACE"@ =~= seq!['K', 'E', 'Y', '_', 'S', 'P', 'A', 'C', 'E']);
    reveal_strlit("KEY_ESC");
    assert("KEY_ESC"@ =~= seq!['K', 'E', 'Y', '_', 'E', 'S', 'C']);
    reveal_strlit("KEY_TAB");
    assert("KEY_TAB"@ =~= seq!['K', 'E', 'Y', '_', 'T', 'A', 'B']);
    reveal_strlit("KEY_ENTER");
    assert("KEY_ENTER"@ =~= seq!['K', 'E', 'Y', '_', 'E', 'N', 'T', 'E', 'R']);
    reveal_strlit("KEY_BACKSPACE");
    assert("KEY_BACKSPACE"@ =~= seq!['K', 'E', 'Y', '_', 'B', 'A', 'C', 'K', 'S', 'P', 'A', 'C', 'E']);
    reveal_strlit("KEY_INSERT");
    assert("KEY_INSERT"@ =~= seq!['K', 'E', 'Y', '_', 'I', 'N', 'S', 'E', 'R', 'T']);
    reveal_strlit("KEY_DELETE");
    assert("KEY_DELETE"@ =~= seq!['K', 'E', 'Y', '_', 'D', 'E', 'L', 'E', 'T', 'E']);
    reveal_strlit("KEY_HOME");
    assert("KEY_HOME"@ =~= seq!['K', 'E', 'Y', '_', 'H', 'O', 'M', 'E']);
    reveal_strlit("KEY_END");
    assert("KEY_END"@ =~= seq!['K', 'E', 'Y', '_', 'E', 'N', 'D']);
    reveal_strlit("KEY_PAGEUP");
    assert("KEY_PAGEUP"@ =~= seq!['K', 'E', 'Y', '_', 'P', 'A', 'G', 'E', 'U', 'P']);
    reveal_strlit("KEY_PAGEDOWN");
    assert("KEY_PAGEDOWN"@ =~= seq!['K', 'E', 'Y', '_', 'P', 'A', 'G', 'E', 'D', 'O', 'W', 'N']);
    reveal_strlit("KEY_DOWN");
    assert("KEY_DOWN"@ =~= seq!['K', 'E', 'Y', '_', 'D', 'O', 'W', 'N']);
    reveal_strlit("KEY_LEFT");
    assert("KEY_LEFT"@ =~= seq!['K', 'E', 'Y', '_', 'L', 'E', 'F', 'T']);
    reveal_strlit("KEY_RIGHT");
    assert("KEY_RIGHT"@ =~= seq!['K', 'E', 'Y', '_', 'R', 'I', 'G', 'H', 'T']);
    reveal_strlit("KEY_UP");
    assert("KEY_UP"@ =~= seq!['K', 'E', 'Y', '_', 'U', 'P']);
    reveal_strlit("KEY_COMMA");
    assert("KEY_COMMA"@ =~= seq!['K', 'E', 'Y', '_', 'C', 'O', 'M', 'M', 'A']);
    reveal_strlit("KEY_BACKSLASH");
    assert("KEY_BACKSLASH"@ =~= seq!['K', 'E', 'Y', '_', 'B', 'A', 'C', 'K', 'S', 'L', 'A', 'S', 'H']);
    reveal_strlit("KEY_SLASH");
    assert("KEY_SLASH"@ =~= seq!['K', 'E', 'Y', '_', 'S', 'L', 'A', 'S', 'H']);
    reveal_strlit("KEY_MINUS");
    assert("KEY_MINUS"@ =~= seq!['K', 'E', 'Y', '_', 'M', 'I', 'N', 'U', 'S']);
    reveal_strlit("KEY_SEMICOLON");
    assert("KEY_SEMICOLON"@ =~= seq!['K', 'E', 'Y', '_', 'S', 'E', 'M', 'I', 'C', 'O', 'L', 'O', 'N']);
    reveal_strlit("KEY_F1");
    assert("KEY_F1"@ =~= seq!['K', 'E', 'Y', '_', 'F', '1']);
    reveal_strlit("KEY_F2");
    assert("KEY_F2"@ =~= seq!['K', 'E', 'Y', '_', 'F', '2']);
    reveal_strlit("KEY_F3");
    assert("KEY_F3"@ =~= seq!['K', 'E', 'Y', '_', 'F', '3']);
    reveal_strlit("KEY_F4");
    assert("KEY_F4"@ =~= seq!['K', 'E', 'Y', '_', 'F', '4']);
    reveal_strlit("KEY_F5");
    assert("KEY_F5"@ =~= seq!['K', 'E', 'Y', '_', 'F', '5']);
    reveal_strlit("KEY_F6");
    assert("KEY_F6"@ =~= seq!['K', 'E', 'Y', '_', 'F', '6']);
    reveal_strlit("KEY_F7");
    assert("KEY_F7"@ =~= seq!['K', 'E', 'Y', '_', 'F', '7']);
    reveal_strlit("KEY_F8");
    assert("KEY_F8"@ =~= seq!['K', 'E', 'Y', '_', 'F', '8']);
    reveal_strlit("KEY_F9");
    assert("KEY_F9"@ =~= seq!['K', 'E', 'Y', '_', 'F', '9']);
    reveal_strlit("KEY_F10");
    assert("KEY_F10"@ =~= seq!['K', 'E', 'Y', '_', 'F', '1', '0']);
    reveal_strlit("KEY_F11");
    assert("KEY_F11"@ =~= seq!['K', 'E', 'Y', '_', 'F', '1', '1']);
    reveal_strlit("KEY_F12");
    assert("KEY_F12"@ =~= seq!['K', 'E', 'Y', '_', 'F', '1', '2']);
    reveal_strlit("KEY_A");
    assert("KEY_A"@ =~= seq!['K', 'E', 'Y', '_', 'A']);
    reveal_strlit("KEY_B");
    assert("KEY_B"@ =~= seq!['K', 'E', 'Y', '_', 'B']);
    reveal_strlit("KEY_C");
    assert("KEY_C"@ =~= seq!['K', 'E', 'Y', '_', 'C']);
    reveal_strlit("KEY_D");
    assert("KEY_D"@ =~= seq!['K', 'E', 'Y', '_', 'D']);
    reveal_strlit("KEY_E");
    assert("KEY_E"@ =~= seq!['K', 'E', 'Y', '_', 'E']);
    reveal_strlit("KEY_F");
    assert("KEY_F"@ =~= seq!['K', 'E', 'Y', '_', 'F']);
    reveal_strlit("KEY_G");
    assert("KEY_G"@ =~= seq!['K', 'E', 'Y', '_', 'G']);
    reveal_strlit("KEY_H");
    assert("KEY_H"@ =~= seq!['K', 'E', 'Y', '_', 'H']);
    reveal_strlit("KEY_I");
    assert("KEY_I"@ =~= seq!['K', 'E', 'Y', '_', 'I']);
    reveal_strlit("KEY_J");
    assert("KEY_J"@ =~= seq!['K', 'E', 'Y', '_', 'J']);
    reveal_strlit("KEY_K");
    assert("KEY_K"@ =~= seq!['K', 'E', 'Y', '_', 'K']);
    reveal_strlit("KEY_L");
    assert("KEY_L"@ =~= seq!['K', 'E', 'Y', '_', 'L']);
    reveal_strlit("KEY_M");
    assert("KEY_M"@ =~= seq!['K', 'E', 'Y', '_', 'M']);
    reveal_strlit("KEY_N");
    assert("KEY_N"@ =~= seq!['K', 'E', 'Y', '_', 'N']);
    reveal_strlit("KEY_O");
    assert("KEY_O"@ =~= seq!['K', 'E', 'Y', '_', 'O']);
    reveal_strlit("KEY_P");
    assert("KEY_P"@ =~= seq!['K', 'E', 'Y', '_', 'P']);
    reveal_strlit("KEY_Q");
    assert("KEY_Q"@ =~= seq!['K', 'E', 'Y', '_', 'Q']);
    reveal_strlit("KEY_R");
    assert("KEY_R"@ =~= seq!['K', 'E', 'Y', '_', 'R']);
    reveal_strlit("KEY_S");
    assert("KEY_S"@ =~= seq!['K', 'E', 'Y', '_', 'S']);
    reveal_strlit("KEY_T");
    assert("KEY_T"@ =~= seq!['K', 'E', 'Y', '_', 'T']);
    reveal_strlit("KEY_U");
    assert("KEY_U"@ =~= seq!['K', 'E', 'Y', '_', 'U']);
    reveal_strlit("KEY_V");
    assert("KEY_V"@ =~= seq!['K', 'E', 'Y', '_', 'V']);
    reveal_strlit("KEY_W");
    assert("KEY_W"@ =~= seq!['K', 'E', 'Y', '_', 'W']);
    reveal_strlit("KEY_X");
    assert("KEY_X"@ =~= seq!['K', 'E', 'Y', '_', 'X']);
    reveal_strlit("KEY_Y");
    assert("KEY_Y"@ =~= seq!['K', 'E', 'Y', '_', 'Y']);
    reveal_strlit("KEY_Z");
    assert("KEY_Z"@ =~= seq!['K', 'E', 'Y', '_', 'Z']);
    reveal_strlit("KEY_0");
    assert("KEY_0"@ =~= seq!['K', 'E', 'Y', '_', '0']);
    reveal_strlit("KEY_1");
    assert("KEY_1"@ =~= seq!['K', 'E', 'Y', '_', '1']);
    reveal_strlit("KEY_2");
    assert("KEY_2"@ =~= seq!['K', 'E', 'Y', '_', '2']);
    reveal_strlit("KEY_3");
    assert("KEY_3"@ =~= seq!['K', 'E', 'Y', '_', '3']);
    reveal_strlit("KEY_4");
    assert("KEY_4"@ =~= seq!['K', 'E', 'Y', '_', '4']);
    reveal_strlit("KEY_5");
    assert("KEY_5"@ =~= seq!['K', 'E', 'Y', '_', '5']);
    reveal_strlit("KEY_6");
    assert("KEY_6"@ =~= seq!['K', 'E', 'Y', '_', '6']);
    reveal_strlit("KEY_7");
    assert("KEY_7"@ =~= seq!['K', 'E', 'Y', '_', '7']);
    reveal_strlit("KEY_8");
    assert("KEY_8"@ =~= seq!['K', 'E', 'Y', '_', '8']);
    reveal_strlit("KEY_9");
    assert("KEY_9"@ =~= seq!['K', 'E', 'Y', '_', '9']);
    reveal_strlit("KEY_");
    assert("KEY_"@ =~= seq!['K', 'E', 'Y', '_']);
}

/// The name of the evdev constant of a key: `KEY_` followed by the key's
/// name in uppercase.
pub open spec fn constant_named(word: Seq<char>) -> Seq<char> {
    "KEY_"@ + ascii_uppercase(word)
}

/// The binding names that are the name of their evdev constant: a letter, a
/// digit, `f1` to `f12`, and the named keys below.
pub open spec fn is_plain_name(name: Seq<char>) -> bool {
    (name.len() == 1 && (('a' <= name[0] <= 'z') || ('0' <= name[0] <= '9'))) || name == "space"@ || name == "esc"@ || name == "tab"@ || name == "enter"@ || name == "backspace"@ || name == "insert"@ || name == "delete"@ || name == "home"@ || name == "end"@ || name == "pageup"@ || name == "pagedown"@ || name == "down"@ || name == "left"@ || name == "right"@ || name == "up"@ || name == "comma"@ || name == "backslash"@ || name == "slash"@ || name == "minus"@ || name == "semicolon"@ || name == "f1"@ || name == "f2"@ || name == "f3"@ || name == "f4"@ || name == "f5"@ || name == "f6"@ || name == "f7"@ || name == "f8"@ || name == "f9"@ || name == "f10"@ || name == "f11"@ || name == "f12"@
}

/// A plain binding name stands for the evdev constant that bears its name:
/// `right` for `KEY_RIGHT`, `f5` for `KEY_F5`, `q` for `KEY_Q`.
pub proof fn lemma_plain_name_constant(name: Seq<char>)
    requires
        is_plain_name(name),
    ensures
        evdev_name_for(name) == constant_named(name),
{
    lemma_table_names();
    lemma_table_spellings();
    if name.len() == 1 && (('a' <= name[0] <= 'z') || ('0' <= name[0] <= '9')) {
        let c = name[0];
        if c == 'a' {
            assert(name =~= "a"@);
            assert(constant_named(name) =~= "KEY_A"@);
        }
        if c == 'b' {
            assert(name =~= "b"@);
            assert(constant_named(name) =~= "KEY_B"@);
        }
        if c == 'c' {
            assert(name =~= "c"@);
            assert(constant_named(name) =~= "KEY_C"@);
        }
        if c == 'd' {
            assert(name =~= "d"@);
            assert(constant_named(name) =~= "KEY_D"@);
        }
        if c == 'e' {
            assert(name =~= "e"@);
            assert(constant_named(name) =~= "KEY_E"@);
        }
        if c == 'f' {
            assert(name =~= "f"@);
            assert(constant_named(name) =~= "KEY_F"@);
        }
        if c == 'g' {
            assert(name =~= "g"@);
            assert(constant_named(name) =~= "KEY_G"@);
        }
        if c == 'h' {
            assert(name =~= "h"@);
            assert(constant_named(name) =~= "KEY_H"@);
        }
        if c == 'i' {
            assert(name =~= "i"@);
            assert(constant_named(name) =~= "KEY_I"@);
        }
        if c == 'j' {
            assert(name =~= "j"@);
            assert(constant_named(name) =~= "KEY_J"@);
        }
        if c == 'k' {
            assert(name =~= "k"@);
            assert(constant_named(name) =~= "KEY_K"@);
        }
        if c == 'l' {
            assert(name =~= "l"@);
            assert(constant_named(name) =~= "KEY_L"@);
        }
        if c == 'm' {
            assert(name =~= "m"@);
            assert(constant_named(name) =~= "KEY_M"@);
        }
        if c == 'n' {
            assert(name =~= "n"@);
            assert(constant_named(name) =~= "KEY_N"@);
        }
        if c == 'o' {
            assert(name =~= "o"@);
            assert(constant_named(name) =~= "KEY_O"@);
        }
        if c == 'p' {
            assert(name =~= "p"@);
            assert(constant_named(name) =~= "KEY_P"@);
        }
        if c == 'q' {
            assert(name =~= "q"@);
            assert(constant_named(name) =~= "KEY_Q"@);
        }
        if c == 'r' {
            assert(name =~= "r"@);
            assert(constant_named(name) =~= "KEY_R"@);
        }
        if c == 's' {
            assert(name =~= "s"@);
            assert(constant_named(name) =~= "KEY_S"@);
        }
        if c == 't' {
            assert(name =~= "t"@);
            assert(constant_named(name) =~= "KEY_T"@);
        }
        if c == 'u' {
            assert(name =~= "u"@);
            assert(constant_named(name) =~= "KEY_U"@);
        }
        if c == 'v' {
            assert(name =~= "v"@);
            assert(constant_named(name) =~= "KEY_V"@);
        }
        if c == 'w' {
            assert(name =~= "w"@);
            assert(constant_named(name) =~= "KEY_W"@);
        }
        if c == 'x' {
            assert(name =~= "x"@);
            assert(constant_named(name) =~= "KEY_X"@);
        }
        if c == 'y' {
            assert(name =~= "y"@);
            assert(constant_named(name) =~= "KEY_Y"@);
        }
        if c == 'z' {
            assert(name =~= "z"@);
            assert(constant_named(name) =~= "KEY_Z"@);
        }
        if c == '0' {
            assert(name =~= "0"@);
            assert(constant_named(name) =~= "KEY_0"@);
        }
        if c == '1' {
            assert(name =~= "1"@);
            assert(constant_named(name) =~= "KEY_1"@);
        }
        if c == '2' {
            assert(name =~= "2"@);
            assert(constant_named(name) =~= "KEY_2"@);
        }
        if c == '3' {
            assert(name =~= "3"@);
            assert(constant_named(name) =~= "KEY_3"@);
        }
        if c == '4' {
            assert(name =~= "4"@);
            assert(constant_named(name) =~= "KEY_4"@);
        }
        if c == '5' {
            assert(name =~= "5"@);
            assert(constant_named(name) =~= "KEY_5"@);
        }
        if c == '6' {
            assert(name =~= "6"@);
            assert(constant_named(name) =~= "KEY_6"@);
        }
        if c == '7' {
            assert(name =~= "7"@);
            assert(constant_named(name) =~= "KEY_7"@);
        }
        if c == '8' {
            assert(name =~= "8"@);
            assert(constant_named(name) =~= "KEY_8"@);
        }
        if c == '9' {
            assert(name =~= "9"@);
            assert(constant_named(name) =~= "KEY_9"@);
        }
    }
    if name == "space"@ {
        assert(constant_named(name) =~= "KEY_SPACE"@);
    }
    if name == "esc"@ {
        assert(constant_named(name) =~= "KEY_ESC"@);
    }
    if name == "tab"@ {
        assert(constant_named(name) =~= "KEY_TAB"@);
    }
    if name == "enter"@ {
        assert(constant_named(name) =~= "KEY_ENTER"@);
    }
    if name == "backspace"@ {
        assert(constant_named(name) =~= "KEY_BACKSPACE"@);
    }
    if name == "insert"@ {
        assert(constant_named(name) =~= "KEY_INSERT"@);
    }
    if name == "delete"@ {
        assert(constant_named(name) =~= "KEY_DELETE"@);
    }
    if name == "home"@ {
        assert(constant_named(name) =~= "KEY_HOME"@);
    }
    if name == "end"@ {
        assert(constant_named(name) =~= "KEY_END"@);
    }
    if name == "pageup"@ {
        assert(constant_named(name) =~= "KEY_PAGEUP"@);
    }
    if name == "pagedown"@ {
        assert(constant_named(name) =~= "KEY_PAGEDOWN"@);
    }
    if name == "down"@ {
        assert(constant_named(name) =~= "KEY_DOWN"@);
    }
    if name == "left"@ {
        assert(constant_named(name) =~= "KEY_LEFT"@);
    }
    if name == "right"@ {
        assert(constant_named(name) =~= "KEY_RIGHT"@);
    }
    if name == "up"@ {
        assert(constant_named(name) =~= "KEY_UP"@);
    }
    if name == "comma"@ {
        assert(constant_named(name) =~= "KEY_COMMA"@);
    }
    if name == "backslash"@ {
        assert(constant_named(name) =~= "KEY_BACKSLASH"@);
    }
    if name == "slash"@ {
        assert(constant_named(name) =~= "KEY_SLASH"@);
    }
    if name == "minus"@ {
        assert(constant_named(name) =~= "KEY_MINUS"@);
    }
    if name == "semicolon"@ {
        assert(constant_named(name) =~= "KEY_SEMICOLON"@);
    }
    if name == "f1"@ {
        assert(constant_named(name) =~= "KEY_F1"@);
    }
    if name == "f2"@ {
        assert(constant_named(name) =~= "KEY_F2"@);
    }
    if name == "f3"@ {
        assert(constant_named(name) =~= "KEY_F3"@);
    }
    if name == "f4"@ {
        assert(constant_named(name) =~= "KEY_F4"@);
    }
    if name == "f5"@ {
        assert(constant_named(name) =~= "KEY_F5"@);
    }
    if name == "f6"@ {
        assert(constant_named(name) =~= "KEY_F6"@);
    }
    if name == "f7"@ {
        assert(constant_named(name) =~= "KEY_F7"@);
    }
    if name == "f8"@ {
        assert(constant_named(name) =~= "KEY_F8"@);
    }
    if name == "f9"@ {
        assert(constant_named(name) =~= "KEY_F9"@);
    }
    if name == "f10"@ {
        assert(constant_named(name) =~= "KEY_F10"@);
    }
    if name == "f11"@ {
        assert(constant_named(name) =~= "KEY_F11"@);
    }
    if name == "f12"@ {
        assert(constant_named(name) =~= "KEY_F12"@);
    }
}

/// `arrowX` names the same evdev constant as `X` for the four arrow keys, and
/// `numN` the same as the digit `N`.
pub proof fn lemma_prefixed_names(name: Seq<char>)
    requires
        name == "up"@ || name == "down"@ || name == "left"@ || name == "right"@ || (name.len() == 1
            && '0' <= name[0] <= '9'),
    ensures
        name.len() == 1 ==> evdev_name_for("num"@ + name) == evdev_name_for(name),
        name.len() > 1 ==> evdev_name_for("arrow"@ + name) == evdev_name_for(name),
{
    lemma_table_names();
    lemma_table_spellings();
    reveal_strlit("num");
    reveal_strlit("arrow");
    if name == "up"@ {
        assert("arrow"@ + name =~= "arrowup"@);
    }
    if name == "down"@ {
        assert("arrow"@ + name =~= "arrowdown"@);
    }
    if name == "left"@ {
        assert("arrow"@ + name =~= "arrowleft"@);
    }
    if name == "right"@ {
        assert("arrow"@ + name =~= "arrowright"@);
    }
    if name.len() == 1 && name[0] == '0' {
        assert(name =~= "0"@);
        assert("num"@ + name =~= "num0"@);
    }
    if name.len() == 1 && name[0] == '1' {
        assert(name =~= "1"@);
        assert("num"@ + name =~= "num1"@);
    }
    if name.len() == 1 && name[0] == '2' {
        assert(name =~= "2"@);
        assert("num"@ + name =~= "num2"@);
    }
    if name.len() == 1 && name[0] == '3' {
        assert(name =~= "3"@);
        assert("num"@ + name =~= "num3"@);
    }
    if name.len() == 1 && name[0] == '4' {
        assert(name =~= "4"@);
        assert("num"@ + name =~= "num4"@);
    }
    if name.len() == 1 && name[0] == '5' {
        assert(name =~= "5"@);
        assert("num"@ + name =~= "num5"@);
    }
    if name.len() == 1 && name[0] == '6' {
        assert(name =~= "6"@);
        assert("num"@ + name =~= "num6"@);
    }
    if name.len() == 1 && name[0] == '7' {
        assert(name =~= "7"@);
        assert("num"@ + name =~= "num7"@);
    }
    if name.len() == 1 && name[0] == '8' {
        assert(name =~= "8"@);
        assert("num"@ + name =~= "num8"@);
    }
    if name.len() == 1 && name[0] == '9' {
        assert(name =~= "9"@);
        assert("num"@ + name =~= "num9"@);
    }
}

/// A digit and `num` followed by it name the same key; evdev numbers the
/// digit row from `1` (code 2) to `9` (code 10), then `0` (code 11).
pub proof fn lemma_digit_code(d: char)
    requires
        '0' <= d <= '9',
    ensures
        code_for_name(seq![d]) == code_for_name(seq!['n', 'u', 'm', d]),
        code_for_name(seq![d]) == (if d == '0' { 11 } else { d as int - '0' as int + 1 }),
{
    lemma_table_names();
    lemma_table_spellings();
    if d == '0' {
        assert(seq![d] =~= "0"@);
        assert(seq!['n', 'u', 'm', d] =~= "num0"@);
        assert(code_for_name("0"@) == 11) by {
            lemma_table_names();
            lemma_table_spellings();
            assert("0"@.len() == 1 && "0"@[0] == '0');
        }
        assert(code_for_name("num0"@) == 11) by {
            lemma_table_names();
            lemma_table_spellings();
        }
    }
    if d == '1' {
        assert(seq![d] =~= "1"@);
        assert(seq!['n', 'u', 'm', d] =~= "num1"@);
        assert(code_for_name("1"@) == 2) by {
            lemma_table_names();
            lemma_table_spellings();
            assert("1"@.len() == 1 && "1"@[0] == '1');
        }
        assert(code_for_name("num1"@) == 2) by {
            lemma_table_names();
            lemma_table_spellings();
        }
    }
    if d == '2' {
        assert(seq![d] =~= "2"@);
        assert(seq!['n', 'u', 'm', d] =~= "num2"@);
        assert(code_for_name("2"@) == 3) by {
            lemma_table_names();
            lemma_table_spellings();
            assert("2"@.len() == 1 && "2"@[0] == '2');
        }
        assert(code_for_name("num2"@) == 3) by {
            lemma_table_names();
            lemma_table_spellings();
        }
    }
    if d == '3' {
        assert(seq![d] =~= "3"@);
        assert(seq!['n', 'u', 'm', d] =~= "num3"@);
        assert(code_for_name("3"@) == 4) by {
            lemma_table_names();
            lemma_table_spellings();
            assert("3"@.len() == 1 && "3"@[0] == '3');
        }
        assert(code_for_name("num3"@) == 4) by {
            lemma_table_names();
            lemma_table_spellings();
        }
    }
    if d == '4' {
        assert(seq![d] =~= "4"@);
        assert(seq!['n', 'u', 'm', d] =~= "num4"@);
        assert(code_for_name("4"@) == 5) by {
            lemma_table_names();
            lemma_table_spellings();
            assert("4"@.len() == 1 && "4"@[0] == '4');
        }
        assert(code_for_name("num4"@) == 5) by {
            lemma_table_names();
            lemma_table_spellings();
        }
    }
    if d == '5' {
        assert(seq![d] =~= "5"@);
        assert(seq!['n', 'u', 'm', d] =~= "num5"@);
        assert(code_for_name("5"@) == 6) by {
            lemma_table_names();
            lemma_table_spellings();
            assert("5"@.len() == 1 && "5"@[0] == '5');
        }
        assert(code_for_name("num5"@) == 6) by {
            lemma_table_names();
            lemma_table_spellings();
        }
    }
    if d == '6' {
        assert(seq![d] =~= "6"@);
        assert(seq!['n', 'u', 'm', d] =~= "num6"@);
        assert(code_for_name("6"@) == 7) by {
            lemma_table_names();
            lemma_table_spellings();
            assert("6"@.len() == 1 && "6"@[0] == '6');
        }
        assert(code_for_name("num6"@) == 7) by {
            lemma_table_names();
            lemma_table_spellings();
        }
    }
    if d == '7' {
        assert(seq![d] =~= "7"@);
        assert(seq!['n', 'u', 'm', d] =~= "num7"@);
        assert(code_for_name("7"@) == 8) by {
            lemma_table_names();
            lemma_table_spellings();
            assert("7"@.len() == 1 && "7"@[0] == '7');
        }
        assert(code_for_name("num7"@) == 8) by {
            lemma_table_names();
            lemma_table_spellings();
        }
    }
    if d == '8' {
        assert(seq![d] =~= "8"@);
        assert(seq!['n', 'u', 'm', d] =~= "num8"@);
        assert(code_for_name("8"@) == 9) by {
            lemma_table_names();
            lemma_table_spellings();
            assert("8"@.len() == 1 && "8"@[0] == '8');
        }
        assert(code_for_name("num8"@) == 9) by {
            lemma_table_names();
            lemma_table_spellings();
        }
    }
    if d == '9' {
        assert(seq![d] =~= "9"@);
        assert(seq!['n', 'u', 'm', d] =~= "num9"@);
        assert(code_for_name("9"@) == 10) by {
            lemma_table_names();
            lemma_table_spellings();
            assert("9"@.len() == 1 && "9"@[0] == '9');
        }
        assert(code_for_name("num9"@) == 10) by {
            lemma_table_names();
            lemma_table_spellings();
        }
    }
}

/// `f1` to `f9` name the function keys with evdev codes 59 to 67.
pub proof fn lemma_function_key_code(d: char)
    requires
        '1' <= d <= '9',
    ensures
        code_for_name(seq!['f', d]) == 58 + (d as int - '0' as int),
{
    lemma_table_names();
    lemma_table_spellings();
    if d == '1' {
        assert(seq!['f', d] =~= "f1"@);
    }
    if d == '2' {
        assert(seq!['f', d] =~= "f2"@);
    }
    if d == '3' {
        assert(seq!['f', d] =~= "f3"@);
    }
    if d == '4' {
        assert(seq!['f', d] =~= "f4"@);
    }
    if d == '5' {
        assert(seq!['f', d] =~= "f5"@);
    }
    if d == '6' {
        assert(seq!['f', d] =~= "f6"@);
    }
    if d == '7' {
        assert(seq!['f', d] =~= "f7"@);
    }
    if d == '8' {
        assert(seq!['f', d] =~= "f8"@);
    }
    if d == '9' {
        assert(seq!['f', d] =~= "f9"@);
    }
}

/// `f10` names the function key with evdev code 68; `f11` and `f12` those
/// with codes 87 and 88.
pub proof fn lemma_two_digit_function_key_code(d: char)
    requires
        '0' <= d <= '2',
    ensures
        code_for_name(seq!['f', '1', d]) == (if d == '0' { 68 } else { 86 + (d as int - '0' as int) }),
{
    lemma_table_names();
    lemma_table_spellings();
    if d == '0' {
        assert(seq!['f', '1', d] =~= "f10"@);
    }
    if d == '1' {
        assert(seq!['f', '1', d] =~= "f11"@);
    }
    if d == '2' {
        assert(seq!['f', '1', d] =~= "f12"@);
    }
}

/// The arrow keys: `up`, `left`, `right` and `down` (and `arrowup` and so on)
/// have the evdev codes 103, 105, 106 and 108, four different keys.
pub proof fn lemma_arrow_codes()
    ensures
        code_for_name("up"@) == 103 && code_for_name("arrowup"@) == 103,
        code_for_name("left"@) == 105 && code_for_name("arrowleft"@) == 105,
        code_for_name("right"@) == 106 && code_for_name("arrowright"@) == 106,
        code_for_name("down"@) == 108 && code_for_name("arrowdown"@) == 108,
{
    lemma_table_names();
    lemma_table_spellings();
}

/// The other spellings of a key name the same evdev constant as its name:
/// `escape` and `esc`, `return` and `enter`, and each symbol and its word;
/// the keys whose word is not their constant's name are the grave accent,
/// the dot, the two brackets and the equals sign, and `pipe` stands for the
/// `P` key.
pub proof fn lemma_alias_names()
    ensures
        evdev_name_for("escape"@) == evdev_name_for("esc"@),
        evdev_name_for("return"@) == evdev_name_for("enter"@),
        evdev_name_for("`"@) == evdev_name_for("backtick"@),
        evdev_name_for(","@) == evdev_name_for("comma"@),
        evdev_name_for("\\"@) == evdev_name_for("backslash"@),
        evdev_name_for("/"@) == evdev_name_for("slash"@),
        evdev_name_for("-"@) == evdev_name_for("minus"@),
        evdev_name_for(";"@) == evdev_name_for("semicolon"@),
        evdev_name_for("."@) == evdev_name_for("period"@),
        evdev_name_for("["@) == evdev_name_for("openbracket"@),
        evdev_name_for("]"@) == evdev_name_for("closebracket"@),
        evdev_name_for("="@) == evdev_name_for("equals"@),
        evdev_name_for("|"@) == evdev_name_for("pipe"@),
        evdev_name_for("esc"@) == "KEY_ESC"@,
        evdev_name_for("enter"@) == "KEY_ENTER"@,
        evdev_name_for("backtick"@) == "KEY_GRAVE"@,
        evdev_name_for("period"@) == "KEY_DOT"@,
        evdev_name_for("openbracket"@) == "KEY_LEFTBRACE"@,
        evdev_name_for("closebracket"@) == "KEY_RIGHTBRACE"@,
        evdev_name_for("equals"@) == "KEY_EQUAL"@,
        evdev_name_for("pipe"@) == "KEY_P"@,
{
    assert(evdev_name_for("escape"@) == evdev_name_for("esc"@)) by {
        lemma_table_names();
        lemma_table_spellings();
    }
    assert(evdev_name_for("return"@) == evdev_name_for("enter"@)) by {
        lemma_table_names();
        lemma_table_spellings();
    }
    assert(evdev_name_for("`"@) == evdev_name_for("backtick"@)) by {
        lemma_table_names();
        lemma_table_spellings();
        assert("`"@.len() == 1 && "`"@[0] == '`');
    }
    assert(evdev_name_for(","@) == evdev_name_for("comma"@)) by {
        lemma_table_names();
        lemma_table_spellings();
        assert(","@.len() == 1 && ","@[0] == ',');
    }
    assert(evdev_name_for("\\"@) == evdev_name_for("backslash"@)) by {
        lemma_table_names();
        lemma_table_spellings();
        assert("\\"@.len() == 1 && "\\"@[0] == '\\');
    }
    assert(evdev_name_for("/"@) == evdev_name_for("slash"@)) by {
        lemma_table_names();
        lemma_table_spellings();
        assert("/"@.len() == 1 && "/"@[0] == '/');
    }
    assert(evdev_name_for("-"@) == evdev_name_for("minus"@)) by {
        lemma_table_names();
        lemma_table_spellings();
        assert("-"@.len() == 1 && "-"@[0] == '-');
    }
    assert(evdev_name_for(";"@) == evdev_name_for("semicolon"@)) by {
        lemma_table_names();
        lemma_table_spellings();
        assert(";"@.len() == 1 && ";"@[0] == ';');
    }
    assert(evdev_name_for("."@) == evdev_name_for("period"@)) by {
        lemma_table_names();
        lemma_table_spellings();
        assert("."@.len() == 1 && "."@[0] == '.');
    }
    assert(evdev_name_for("["@) == evdev_name_for("openbracket"@)) by {
        lemma_table_names();
        lemma_table_spellings();
        assert("["@.len() == 1 && "["@[0] == '[');
    }
    assert(evdev_name_for("]"@) == evdev_name_for("closebracket"@)) by {
        lemma_table_names();
        lemma_table_spellings();
        assert("]"@.len() == 1 && "]"@[0] == ']');
    }
    assert(evdev_name_for("="@) == evdev_name_for("equals"@)) by {
        lemma_table_names();
        lemma_table_spellings();
        assert("="@.len() == 1 && "="@[0] == '=');
    }
    assert(evdev_name_for("|"@) == evdev_name_for("pipe"@)) by {
        lemma_table_names();
        lemma_table_spellings();
        assert("|"@.len() == 1 && "|"@[0] == '|');
    }
    assert(evdev_name_for("esc"@) == "KEY_ESC"@) by {
        lemma_table_names();
        lemma_table_spellings();
    }
    assert(evdev_name_for("enter"@) == "KEY_ENTER"@) by {
        lemma_table_names();
        lemma_table_spellings();
    }
    assert(evdev_name_for("backtick"@) == "KEY_GRAVE"@) by {
        lemma_table_names();
        lemma_table_spellings();
    }
    assert(evdev_name_for("period"@) == "KEY_DOT"@) by {
        lemma_table_names();
        lemma_table_spellings();
    }
    assert(evdev_name_for("openbracket"@) == "KEY_LEFTBRACE"@) by {
        lemma_table_names();
        lemma_table_spellings();
    }
    assert(evdev_name_for("closebracket"@) == "KEY_RIGHTBRACE"@) by {
        lemma_table_names();
        lemma_table_spellings();
    }
    assert(evdev_name_for("equals"@) == "KEY_EQUAL"@) by {
        lemma_table_names();
        lemma_table_spellings();
    }
    assert(evdev_name_for("pipe"@) == "KEY_P"@) by {
        lemma_table_names();
        lemma_table_spellings();
    }
}

} // verus!
