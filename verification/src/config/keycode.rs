//! Logical key codes and their configuration names.

use vstd::prelude::*;

use crate::text::{ascii_upper, same_text};

verus! {

/// `evdev::KeyCode`, the code of a key event. Nothing is assumed of what a
/// value of it holds.
#[verifier::external_type_specification]
#[verifier::external_body]
pub struct ExKeyCode(evdev::KeyCode);

/// The event code that `evdev::KeyCode::new` builds from a raw scancode.
pub uninterp spec fn evdev_key(code: u16) -> evdev::KeyCode;

/// `evdev::KeyCode::new` wraps a raw scancode: the key it returns is a
/// function of the scancode alone.
pub assume_specification[ evdev::KeyCode::new ](code: u16) -> (key: evdev::KeyCode)
    ensures
        key == evdev_key(code),
;

/// The text that formatting the event code of a raw scancode with `{:?}`
/// gives.
pub uninterp spec fn evdev_key_name(code: u16) -> Seq<char>;

/// The `Debug` text of `evdev::KeyCode`: the name of the key where the
/// scancode has one. The text is a function of the scancode alone.
#[verifier::external_body]
fn key_name(code: u16) -> (name: String)
    ensures
        name@ == evdev_key_name(code),
{
    format!("{:?}", evdev::KeyCode::new(code))
}

/// The number of scancodes that the Linux input subsystem has room for:
/// every scancode of a key is below it.
pub const KEY_COUNT: u16 = 768;

// Scancodes, as the Linux input subsystem numbers them.
pub const KEY_A: u16 = 30;

pub const KEY_B: u16 = 48;

pub const KEY_C: u16 = 46;

pub const KEY_D: u16 = 32;

pub const KEY_E: u16 = 18;

pub const KEY_F: u16 = 33;

pub const KEY_G: u16 = 34;

pub const KEY_H: u16 = 35;

pub const KEY_I: u16 = 23;

pub const KEY_J: u16 = 36;

pub const KEY_K: u16 = 37;

pub const KEY_L: u16 = 38;

pub const KEY_M: u16 = 50;

pub const KEY_N: u16 = 49;

pub const KEY_O: u16 = 24;

pub const KEY_P: u16 = 25;

pub const KEY_Q: u16 = 16;

pub const KEY_R: u16 = 19;

pub const KEY_S: u16 = 31;

pub const KEY_T: u16 = 20;

pub const KEY_U: u16 = 22;

pub const KEY_V: u16 = 47;

pub const KEY_W: u16 = 17;

pub const KEY_X: u16 = 45;

pub const KEY_Y: u16 = 21;

pub const KEY_Z: u16 = 44;

pub const KEY_ENTER: u16 = 28;

pub const KEY_SPACE: u16 = 57;

pub const KEY_ESC: u16 = 1;

pub const KEY_UP: u16 = 103;

pub const KEY_DOWN: u16 = 108;

pub const KEY_LEFT: u16 = 105;

pub const KEY_RIGHT: u16 = 106;

pub const KEY_LEFTCTRL: u16 = 29;

pub const KEY_RIGHTCTRL: u16 = 97;

pub const KEY_LEFTSHIFT: u16 = 42;

pub const KEY_RIGHTSHIFT: u16 = 54;

pub const KEY_LEFTALT: u16 = 56;

pub const KEY_RIGHTALT: u16 = 100;

pub const KEY_TAB: u16 = 15;

pub const KEY_BACKSPACE: u16 = 14;

pub const KEY_CAPSLOCK: u16 = 58;

pub const KEY_F1: u16 = 59;

pub const KEY_F2: u16 = 60;

pub const KEY_F3: u16 = 61;

pub const KEY_F4: u16 = 62;

pub const KEY_F5: u16 = 63;

pub const KEY_F6: u16 = 64;

pub const KEY_F7: u16 = 65;

pub const KEY_F8: u16 = 66;

pub const KEY_F9: u16 = 67;

pub const KEY_F10: u16 = 68;

pub const KEY_F11: u16 = 87;

pub const KEY_F12: u16 = 88;

pub const KEY_HOME: u16 = 102;

pub const KEY_END: u16 = 107;

pub const KEY_PAGEUP: u16 = 104;

pub const KEY_PAGEDOWN: u16 = 109;

pub const KEY_INSERT: u16 = 110;

pub const KEY_DELETE: u16 = 111;

pub const KEY_0: u16 = 11;

pub const KEY_1: u16 = 2;

pub const KEY_2: u16 = 3;

pub const KEY_3: u16 = 4;

pub const KEY_4: u16 = 5;

pub const KEY_5: u16 = 6;

pub const KEY_6: u16 = 7;

pub const KEY_7: u16 = 8;

pub const KEY_8: u16 = 9;

pub const KEY_9: u16 = 10;

pub const KEY_MINUS: u16 = 12;

pub const KEY_EQUAL: u16 = 13;

pub const KEY_LEFTBRACE: u16 = 26;

pub const KEY_RIGHTBRACE: u16 = 27;

pub const KEY_BACKSLASH: u16 = 43;

pub const KEY_SEMICOLON: u16 = 39;

pub const KEY_APOSTROPHE: u16 = 40;

pub const KEY_GRAVE: u16 = 41;

pub const KEY_COMMA: u16 = 51;

pub const KEY_DOT: u16 = 52;

pub const KEY_SLASH: u16 = 53;

pub const KEY_KP0: u16 = 82;

pub const KEY_KP1: u16 = 79;

pub const KEY_KP2: u16 = 80;

pub const KEY_KP3: u16 = 81;

pub const KEY_KP4: u16 = 75;

pub const KEY_KP5: u16 = 76;

pub const KEY_KP6: u16 = 77;

pub const KEY_KP7: u16 = 71;

pub const KEY_KP8: u16 = 72;

pub const KEY_KP9: u16 = 73;

pub const KEY_KPENTER: u16 = 96;

pub const KEY_KPPLUS: u16 = 78;

pub const KEY_KPMINUS: u16 = 74;

pub const KEY_KPASTERISK: u16 = 55;

pub const KEY_KPSLASH: u16 = 98;

/// A letter key, by its upper case configuration name.
pub open spec fn letter_named(name: Seq<char>) -> Option<u16> {
    if name == "A"@ {
        Some(KEY_A)
    } else if name == "B"@ {
        Some(KEY_B)
    } else if name == "C"@ {
        Some(KEY_C)
    } else if name == "D"@ {
        Some(KEY_D)
    } else if name == "E"@ {
        Some(KEY_E)
    } else if name == "F"@ {
        Some(KEY_F)
    } else if name == "G"@ {
        Some(KEY_G)
    } else if name == "H"@ {
        Some(KEY_H)
    } else if name == "I"@ {
        Some(KEY_I)
    } else if name == "J"@ {
        Some(KEY_J)
    } else if name == "K"@ {
        Some(KEY_K)
    } else if name == "L"@ {
        Some(KEY_L)
    } else if name == "M"@ {
        Some(KEY_M)
    } else if name == "N"@ {
        Some(KEY_N)
    } else if name == "O"@ {
        Some(KEY_O)
    } else if name == "P"@ {
        Some(KEY_P)
    } else if name == "Q"@ {
        Some(KEY_Q)
    } else if name == "R"@ {
        Some(KEY_R)
    } else if name == "S"@ {
        Some(KEY_S)
    } else if name == "T"@ {
        Some(KEY_T)
    } else if name == "U"@ {
        Some(KEY_U)
    } else if name == "V"@ {
        Some(KEY_V)
    } else if name == "W"@ {
        Some(KEY_W)
    } else if name == "X"@ {
        Some(KEY_X)
    } else if name == "Y"@ {
        Some(KEY_Y)
    } else if name == "Z"@ {
        Some(KEY_Z)
    } else {
        None
    }
}

/// A control, arrow or modifier key, by its upper case configuration name.
pub open spec fn editing_named(name: Seq<char>) -> Option<u16> {
    if name == "ENTER"@ {
        Some(KEY_ENTER)
    } else if name == "SPACE"@ {
        Some(KEY_SPACE)
    } else if name == "ESCAPE"@ {
        Some(KEY_ESC)
    } else if name == "UP"@ {
        Some(KEY_UP)
    } else if name == "DOWN"@ {
        Some(KEY_DOWN)
    } else if name == "LEFT"@ {
        Some(KEY_LEFT)
    } else if name == "RIGHT"@ {
        Some(KEY_RIGHT)
    } else if name == "LCTRL"@ {
        Some(KEY_LEFTCTRL)
    } else if name == "RCTRL"@ {
        Some(KEY_RIGHTCTRL)
    } else if name == "LSHIFT"@ {
        Some(KEY_LEFTSHIFT)
    } else if name == "RSHIFT"@ {
        Some(KEY_RIGHTSHIFT)
    } else if name == "LALT"@ {
        Some(KEY_LEFTALT)
    } else if name == "RALT"@ {
        Some(KEY_RIGHTALT)
    } else if name == "TAB"@ {
        Some(KEY_TAB)
    } else if name == "BACKSPACE"@ {
        Some(KEY_BACKSPACE)
    } else if name == "CAPSLOCK"@ {
        Some(KEY_CAPSLOCK)
    } else {
        None
    }
}

/// A function key, by its upper case configuration name.
pub open spec fn function_named(name: Seq<char>) -> Option<u16> {
    if name == "F1"@ {
        Some(KEY_F1)
    } else if name == "F2"@ {
        Some(KEY_F2)
    } else if name == "F3"@ {
        Some(KEY_F3)
    } else if name == "F4"@ {
        Some(KEY_F4)
    } else if name == "F5"@ {
        Some(KEY_F5)
    } else if name == "F6"@ {
        Some(KEY_F6)
    } else if name == "F7"@ {
        Some(KEY_F7)
    } else if name == "F8"@ {
        Some(KEY_F8)
    } else if name == "F9"@ {
        Some(KEY_F9)
    } else if name == "F10"@ {
        Some(KEY_F10)
    } else if name == "F11"@ {
        Some(KEY_F11)
    } else if name == "F12"@ {
        Some(KEY_F12)
    } else {
        None
    }
}

/// A navigation key, by its upper case configuration name.
pub open spec fn navigation_named(name: Seq<char>) -> Option<u16> {
    if name == "HOME"@ {
        Some(KEY_HOME)
    } else if name == "END"@ {
        Some(KEY_END)
    } else if name == "PAGEUP"@ {
        Some(KEY_PAGEUP)
    } else if name == "PAGEDOWN"@ {
        Some(KEY_PAGEDOWN)
    } else if name == "INSERT"@ {
        Some(KEY_INSERT)
    } else if name == "DELETE"@ {
        Some(KEY_DELETE)
    } else {
        None
    }
}

/// A digit key of the main block, by its upper case configuration name.
pub open spec fn digit_named(name: Seq<char>) -> Option<u16> {
    if name == "0"@ {
        Some(KEY_0)
    } else if name == "1"@ {
        Some(KEY_1)
    } else if name == "2"@ {
        Some(KEY_2)
    } else if name == "3"@ {
        Some(KEY_3)
    } else if name == "4"@ {
        Some(KEY_4)
    } else if name == "5"@ {
        Some(KEY_5)
    } else if name == "6"@ {
        Some(KEY_6)
    } else if name == "7"@ {
        Some(KEY_7)
    } else if name == "8"@ {
        Some(KEY_8)
    } else if name == "9"@ {
        Some(KEY_9)
    } else {
        None
    }
}

/// A punctuation key, by its upper case configuration name.
pub open spec fn punctuation_named(name: Seq<char>) -> Option<u16> {
    if name == "-"@ {
        Some(KEY_MINUS)
    } else if name == "="@ {
        Some(KEY_EQUAL)
    } else if name == "["@ {
        Some(KEY_LEFTBRACE)
    } else if name == "]"@ {
        Some(KEY_RIGHTBRACE)
    } else if name == "\\"@ {
        Some(KEY_BACKSLASH)
    } else if name == ";"@ {
        Some(KEY_SEMICOLON)
    } else if name == "'"@ {
        Some(KEY_APOSTROPHE)
    } else if name == "`"@ {
        Some(KEY_GRAVE)
    } else if name == ","@ {
        Some(KEY_COMMA)
    } else if name == "."@ {
        Some(KEY_DOT)
    } else if name == "/"@ {
        Some(KEY_SLASH)
    } else {
        None
    }
}

/// A key of the numeric pad, by its upper case configuration name.
pub open spec fn numpad_named(name: Seq<char>) -> Option<u16> {
    if name == "NUMPAD_0"@ {
        Some(KEY_KP0)
    } else if name == "NUMPAD_1"@ {
        Some(KEY_KP1)
    } else if name == "NUMPAD_2"@ {
        Some(KEY_KP2)
    } else if name == "NUMPAD_3"@ {
        Some(KEY_KP3)
    } else if name == "NUMPAD_4"@ {
        Some(KEY_KP4)
    } else if name == "NUMPAD_5"@ {
        Some(KEY_KP5)
    } else if name == "NUMPAD_6"@ {
        Some(KEY_KP6)
    } else if name == "NUMPAD_7"@ {
        Some(KEY_KP7)
    } else if name == "NUMPAD_8"@ {
        Some(KEY_KP8)
    } else if name == "NUMPAD_9"@ {
        Some(KEY_KP9)
    } else if name == "NUMPAD_ENTER"@ {
        Some(KEY_KPENTER)
    } else if name == "NUMPAD_ADD"@ {
        Some(KEY_KPPLUS)
    } else if name == "NUMPAD_SUBTRACT"@ {
        Some(KEY_KPMINUS)
    } else if name == "NUMPAD_MULTIPLY"@ {
        Some(KEY_KPASTERISK)
    } else if name == "NUMPAD_DIVIDE"@ {
        Some(KEY_KPSLASH)
    } else {
        None
    }
}

/// The scancode that an upper case configuration name stands for, if it is
/// the name of a supported key.
pub open spec fn scancode_named(name: Seq<char>) -> Option<u16> {
    if letter_named(name) is Some {
        letter_named(name)
    } else if editing_named(name) is Some {
        editing_named(name)
    } else if function_named(name) is Some {
        function_named(name)
    } else if navigation_named(name) is Some {
        navigation_named(name)
    } else if digit_named(name) is Some {
        digit_named(name)
    } else if punctuation_named(name) is Some {
        punctuation_named(name)
    } else if numpad_named(name) is Some {
        numpad_named(name)
    } else {
        None
    }
}

fn letter_scancode(name: &String) -> (code: Option<u16>)
    ensures
        code == letter_named(name@),
{
    if same_text(name, "A") {
        Some(KEY_A)
    } else if same_text(name, "B") {
        Some(KEY_B)
    } else if same_text(name, "C") {
        Some(KEY_C)
    } else if same_text(name, "D") {
        Some(KEY_D)
    } else if same_text(name, "E") {
        Some(KEY_E)
    } else if same_text(name, "F") {
        Some(KEY_F)
    } else if same_text(name, "G") {
        Some(KEY_G)
    } else if same_text(name, "H") {
        Some(KEY_H)
    } else if same_text(name, "I") {
        Some(KEY_I)
    } else if same_text(name, "J") {
        Some(KEY_J)
    } else if same_text(name, "K") {
        Some(KEY_K)
    } else if same_text(name, "L") {
        Some(KEY_L)
    } else if same_text(name, "M") {
        Some(KEY_M)
    } else if same_text(name, "N") {
        Some(KEY_N)
    } else if same_text(name, "O") {
        Some(KEY_O)
    } else if same_text(name, "P") {
        Some(KEY_P)
    } else if same_text(name, "Q") {
        Some(KEY_Q)
    } else if same_text(name, "R") {
        Some(KEY_R)
    } else if same_text(name, "S") {
        Some(KEY_S)
    } else if same_text(name, "T") {
        Some(KEY_T)
    } else if same_text(name, "U") {
        Some(KEY_U)
    } else if same_text(name, "V") {
        Some(KEY_V)
    } else if same_text(name, "W") {
        Some(KEY_W)
    } else if same_text(name, "X") {
        Some(KEY_X)
    } else if same_text(name, "Y") {
        Some(KEY_Y)
    } else if same_text(name, "Z") {
        Some(KEY_Z)
    } else {
        None
    }
}

fn editing_scancode(name: &String) -> (code: Option<u16>)
    ensures
        code == editing_named(name@),
{
    if same_text(name, "ENTER") {
        Some(KEY_ENTER)
    } else if same_text(name, "SPACE") {
        Some(KEY_SPACE)
    } else if same_text(name, "ESCAPE") {
        Some(KEY_ESC)
    } else if same_text(name, "UP") {
        Some(KEY_UP)
    } else if same_text(name, "DOWN") {
        Some(KEY_DOWN)
    } else if same_text(name, "LEFT") {
        Some(KEY_LEFT)
    } else if same_text(name, "RIGHT") {
        Some(KEY_RIGHT)
    } else if same_text(name, "LCTRL") {
        Some(KEY_LEFTCTRL)
    } else if same_text(name, "RCTRL") {
        Some(KEY_RIGHTCTRL)
    } else if same_text(name, "LSHIFT") {
        Some(KEY_LEFTSHIFT)
    } else if same_text(name, "RSHIFT") {
        Some(KEY_RIGHTSHIFT)
    } else if same_text(name, "LALT") {
        Some(KEY_LEFTALT)
    } else if same_text(name, "RALT") {
        Some(KEY_RIGHTALT)
    } else if same_text(name, "TAB") {
        Some(KEY_TAB)
    } else if same_text(name, "BACKSPACE") {
        Some(KEY_BACKSPACE)
    } else if same_text(name, "CAPSLOCK") {
        Some(KEY_CAPSLOCK)
    } else {
        None
    }
}

fn function_scancode(name: &String) -> (code: Option<u16>)
    ensures
        code == function_named(name@),
{
    if same_text(name, "F1") {
        Some(KEY_F1)
    } else if same_text(name, "F2") {
        Some(KEY_F2)
    } else if same_text(name, "F3") {
        Some(KEY_F3)
    } else if same_text(name, "F4") {
        Some(KEY_F4)
    } else if same_text(name, "F5") {
        Some(KEY_F5)
    } else if same_text(name, "F6") {
        Some(KEY_F6)
    } else if same_text(name, "F7") {
        Some(KEY_F7)
    } else if same_text(name, "F8") {
        Some(KEY_F8)
    } else if same_text(name, "F9") {
        Some(KEY_F9)
    } else if same_text(name, "F10") {
        Some(KEY_F10)
    } else if same_text(name, "F11") {
        Some(KEY_F11)
    } else if same_text(name, "F12") {
        Some(KEY_F12)
    } else {
        None
    }
}

fn navigation_scancode(name: &String) -> (code: Option<u16>)
    ensures
        code == navigation_named(name@),
{
    if same_text(name, "HOME") {
        Some(KEY_HOME)
    } else if same_text(name, "END") {
        Some(KEY_END)
    } else if same_text(name, "PAGEUP") {
        Some(KEY_PAGEUP)
    } else if same_text(name, "PAGEDOWN") {
        Some(KEY_PAGEDOWN)
    } else if same_text(name, "INSERT") {
        Some(KEY_INSERT)
    } else if same_text(name, "DELETE") {
        Some(KEY_DELETE)
    } else {
        None
    }
}

fn digit_scancode(name: &String) -> (code: Option<u16>)
    ensures
        code == digit_named(name@),
{
    if same_text(name, "0") {
        Some(KEY_0)
    } else if same_text(name, "1") {
        Some(KEY_1)
    } else if same_text(name, "2") {
        Some(KEY_2)
    } else if same_text(name, "3") {
        Some(KEY_3)
    } else if same_text(name, "4") {
        Some(KEY_4)
    } else if same_text(name, "5") {
        Some(KEY_5)
    } else if same_text(name, "6") {
        Some(KEY_6)
    } else if same_text(name, "7") {
        Some(KEY_7)
    } else if same_text(name, "8") {
        Some(KEY_8)
    } else if same_text(name, "9") {
        Some(KEY_9)
    } else {
        None
    }
}

fn punctuation_scancode(name: &String) -> (code: Option<u16>)
    ensures
        code == punctuation_named(name@),
{
    if same_text(name, "-") {
        Some(KEY_MINUS)
    } else if same_text(name, "=") {
        Some(KEY_EQUAL)
    } else if same_text(name, "[") {
        Some(KEY_LEFTBRACE)
    } else if same_text(name, "]") {
        Some(KEY_RIGHTBRACE)
    } else if same_text(name, "\\") {
        Some(KEY_BACKSLASH)
    } else if same_text(name, ";") {
        Some(KEY_SEMICOLON)
    } else if same_text(name, "'") {
        Some(KEY_APOSTROPHE)
    } else if same_text(name, "`") {
        Some(KEY_GRAVE)
    } else if same_text(name, ",") {
        Some(KEY_COMMA)
    } else if same_text(name, ".") {
        Some(KEY_DOT)
    } else if same_text(name, "/") {
        Some(KEY_SLASH)
    } else {
        None
    }
}

fn numpad_scancode(name: &String) -> (code: Option<u16>)
    ensures
        code == numpad_named(name@),
{
    if same_text(name, "NUMPAD_0") {
        Some(KEY_KP0)
    } else if same_text(name, "NUMPAD_1") {
        Some(KEY_KP1)
    } else if same_text(name, "NUMPAD_2") {
        Some(KEY_KP2)
    } else if same_text(name, "NUMPAD_3") {
        Some(KEY_KP3)
    } else if same_text(name, "NUMPAD_4") {
        Some(KEY_KP4)
    } else if same_text(name, "NUMPAD_5") {
        Some(KEY_KP5)
    } else if same_text(name, "NUMPAD_6") {
        Some(KEY_KP6)
    } else if same_text(name, "NUMPAD_7") {
        Some(KEY_KP7)
    } else if same_text(name, "NUMPAD_8") {
        Some(KEY_KP8)
    } else if same_text(name, "NUMPAD_9") {
        Some(KEY_KP9)
    } else if same_text(name, "NUMPAD_ENTER") {
        Some(KEY_KPENTER)
    } else if same_text(name, "NUMPAD_ADD") {
        Some(KEY_KPPLUS)
    } else if same_text(name, "NUMPAD_SUBTRACT") {
        Some(KEY_KPMINUS)
    } else if same_text(name, "NUMPAD_MULTIPLY") {
        Some(KEY_KPASTERISK)
    } else if same_text(name, "NUMPAD_DIVIDE") {
        Some(KEY_KPSLASH)
    } else {
        None
    }
}

/// The scancode of the key with the upper case configuration name `name`.
fn scancode_of(name: &String) -> (code: Option<u16>)
    ensures
        code == scancode_named(name@),
{
    let code = letter_scancode(name);
    if code.is_some() {
        return code;
    }
    let code = editing_scancode(name);
    if code.is_some() {
        return code;
    }
    let code = function_scancode(name);
    if code.is_some() {
        return code;
    }
    let code = navigation_scancode(name);
    if code.is_some() {
        return code;
    }
    let code = digit_scancode(name);
    if code.is_some() {
        return code;
    }
    let code = punctuation_scancode(name);
    if code.is_some() {
        return code;
    }
    let code = numpad_scancode(name);
    if code.is_some() {
        return code;
    }
    None
}

/// The scancode belongs to a supported key: some configuration name stands
/// for it.
pub open spec fn supported(code: u16) -> bool {
    exists|name: Seq<char>| #[trigger] scancode_named(name) == Some(code)
}

/// The scancode of every supported key is a scancode of the Linux input
/// subsystem.
pub proof fn lemma_supported_scancodes_are_in_range(code: u16)
    requires
        supported(code),
    ensures
        code < KEY_COUNT,
{
    let name = choose|name: Seq<char>| #[trigger] scancode_named(name) == Some(code);
    assert(scancode_named(name) == Some(code));
}

/// A key of the virtual keyboard, held as its raw scancode. The keys are a
/// closed vocabulary: a value is only ever made from a configuration name,
/// and stands for a supported key.
#[derive(Clone, Copy, Debug, PartialEq, Eq, Structural)]
pub struct Keycode {
    code: u16,
}

impl Keycode {
    #[verifier::type_invariant]
    spec fn names_a_key(self) -> bool {
        supported(self.code)
    }

    /// The raw scancode of the key.
    pub closed spec fn raw(self) -> u16 {
        self.code
    }

    /// The raw scancode of the key: that of a supported key, and so a
    /// scancode of the Linux input subsystem.
    pub fn code(&self) -> (code: u16)
        ensures
            code == self.raw(),
            supported(code),
            code < KEY_COUNT,
    {
        proof {
            use_type_invariant(self);
            lemma_supported_scancodes_are_in_range(self.code);
        }
        self.code
    }

    /// The key as the event code that a keyboard is driven with.
    pub fn keycode(&self) -> (key: evdev::KeyCode)
        ensures
            key == evdev_key(self.raw()),
    {
        evdev::KeyCode::new(self.code)
    }

    /// The key that a configuration name stands for. Names are matched
    /// without regard to ASCII case; a name that no supported key has is
    /// refused with the message `Unsupported keycode`.
    pub fn from_str(s: &str) -> (parsed: Result<Keycode, &'static str>)
        ensures
            match parsed {
                Ok(key) => scancode_named(ascii_upper(s@)) == Some(key.raw()),
                Err(message) => scancode_named(ascii_upper(s@)) is None && message@
                    == "Unsupported keycode"@,
            },
    {
        let upper = s.to_ascii_uppercase();
        match scancode_of(&upper) {
            Some(code) => Ok(Keycode { code }),
            None => Err("Unsupported keycode"),
        }
    }

    /// The name of the key, as the event code prints it.
    pub fn to_string(&self) -> (name: String)
        ensures
            name@ == evdev_key_name(self.raw()),
    {
        key_name(self.code)
    }
}

} // verus!
