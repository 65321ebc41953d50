//! The key/button name table: a pure mapping from platform key and
//! button codes to canonical string identifiers. An unmapped code is
//! reported with its raw numeric code; it is a non-fatal condition.

use vstd::prelude::*;

verus! {

/// A platform keyboard key code, one variant per physical key of a
/// standard layout; codes the table does not know arrive as `Unknown`.
#[derive(Clone, Copy, Debug, PartialEq, Eq, Structural)]
pub enum Key {
    Alt,
    AltGr,
    Backspace,
    CapsLock,
    ControlLeft,
    ControlRight,
    Delete,
    DownArrow,
    End,
    Escape,
    F1,
    F10,
    F11,
    F12,
    F2,
    F3,
    F4,
    F5,
    F6,
    F7,
    F8,
    F9,
    Home,
    LeftArrow,
    MetaLeft,
    MetaRight,
    PageDown,
    PageUp,
    Return,
    RightArrow,
    ShiftLeft,
    ShiftRight,
    Space,
    Tab,
    UpArrow,
    PrintScreen,
    ScrollLock,
    Pause,
    NumLock,
    BackQuote,
    Num1,
    Num2,
    Num3,
    Num4,
    Num5,
    Num6,
    Num7,
    Num8,
    Num9,
    Num0,
    Minus,
    Equal,
    KeyQ,
    KeyW,
    KeyE,
    KeyR,
    KeyT,
    KeyY,
    KeyU,
    KeyI,
    KeyO,
    KeyP,
    LeftBracket,
    RightBracket,
    KeyA,
    KeyS,
    KeyD,
    KeyF,
    KeyG,
    KeyH,
    KeyJ,
    KeyK,
    KeyL,
    SemiColon,
    Quote,
    BackSlash,
    IntlBackslash,
    KeyZ,
    KeyX,
    KeyC,
    KeyV,
    KeyB,
    KeyN,
    KeyM,
    Comma,
    Dot,
    Slash,
    Insert,
    KpReturn,
    KpMinus,
    KpPlus,
    KpMultiply,
    KpDivide,
    Kp0,
    Kp1,
    Kp2,
    Kp3,
    Kp4,
    Kp5,
    Kp6,
    Kp7,
    Kp8,
    Kp9,
    KpDelete,
    Function,
    Unknown(u32),
}

/// A platform mouse button code; extra buttons beyond the first three
/// arrive as `Unknown` with a secondary numeric code.
#[derive(Clone, Copy, Debug, PartialEq, Eq, Structural)]
pub enum Button {
    Left,
    Right,
    Middle,
    Unknown(u8),
}

/// The canonical identifier of `key`, or `None` where the table has no
/// entry for it.
pub open spec fn key_name(key: Key) -> Option<Seq<char>> {
    match key {
        Key::Alt => Some("alt_left"@),
        Key::AltGr => Some("alt_right"@),
        Key::Backspace => Some("backspace"@),
        Key::CapsLock => Some("caps_lock"@),
        Key::ControlLeft => Some("control_left"@),
        Key::ControlRight => Some("control_right"@),
        Key::Delete => Some("delete"@),
        Key::DownArrow => Some("down_arrow"@),
        Key::End => Some("end"@),
        Key::Escape => Some("escape"@),
        Key::F1 => Some("f1"@),
        Key::F10 => Some("f10"@),
        Key::F11 => Some("f11"@),
        Key::F12 => Some("f12"@),
        Key::F2 => Some("f2"@),
        Key::F3 => Some("f3"@),
        Key::F4 => Some("f4"@),
        Key::F5 => Some("f5"@),
        Key::F6 => Some("f6"@),
        Key::F7 => Some("f7"@),
        Key::F8 => Some("f8"@),
        Key::F9 => Some("f9"@),
        Key::Home => Some("home"@),
        Key::LeftArrow => Some("left_arrow"@),
        Key::MetaLeft => Some("meta_left"@),
        Key::MetaRight => Some("meta_right"@),
        Key::PageDown => Some("page_down"@),
        Key::PageUp => Some("page_up"@),
        Key::Return => Some("return"@),
        Key::RightArrow => Some("right_arrow"@),
        Key::ShiftLeft => Some("shift_left"@),
        Key::ShiftRight => Some("shift_right"@),
        Key::Space => Some("space"@),
        Key::Tab => Some("tab"@),
        Key::UpArrow => Some("up_arrow"@),
        Key::PrintScreen => Some("print_screen"@),
        Key::ScrollLock => Some("scroll_lock"@),
        Key::Pause => Some("pause"@),
        Key::NumLock => Some("num_lock"@),
        Key::BackQuote => Some("back_quote"@),
        Key::Num1 => Some("1"@),
        Key::Num2 => Some("2"@),
        Key::Num3 => Some("3"@),
        Key::Num4 => Some("4"@),
        Key::Num5 => Some("5"@),
        Key::Num6 => Some("6"@),
        Key::Num7 => Some("7"@),
        Key::Num8 => Some("8"@),
        Key::Num9 => Some("9"@),
        Key::Num0 => Some("0"@),
        Key::Minus => Some("minus"@),
        Key::Equal => Some("equal"@),
        Key::KeyQ => Some("q"@),
        Key::KeyW => Some("w"@),
        Key::KeyE => Some("e"@),
        Key::KeyR => Some("r"@),
        Key::KeyT => Some("t"@),
        Key::KeyY => Some("y"@),
        Key::KeyU => Some("u"@),
        Key::KeyI => Some("i"@),
        Key::KeyO => Some("o"@),
        Key::KeyP => Some("p"@),
        Key::LeftBracket => Some("left_bracket"@),
        Key::RightBracket => Some("right_bracket"@),
        Key::KeyA => Some("a"@),
        Key::KeyS => Some("s"@),
        Key::KeyD => Some("d"@),
        Key::KeyF => Some("f"@),
        Key::KeyG => Some("g"@),
        Key::KeyH => Some("h"@),
        Key::KeyJ => Some("j"@),
        Key::KeyK => Some("k"@),
        Key::KeyL => Some("l"@),
        Key::SemiColon => Some("semicolon"@),
        Key::Quote => Some("quote"@),
        Key::BackSlash => Some("backslash"@),
        Key::IntlBackslash => None,
        Key::KeyZ => Some("z"@),
        Key::KeyX => Some("x"@),
        Key::KeyC => Some("c"@),
        Key::KeyV => Some("v"@),
        Key::KeyB => Some("b"@),
        Key::KeyN => Some("n"@),
        Key::KeyM => Some("m"@),
        Key::Comma => Some("comma"@),
        Key::Dot => Some("dot"@),
        Key::Slash => Some("slash"@),
        Key::Insert => Some("insert"@),
        Key::KpReturn => Some("kp_return"@),
        Key::KpMinus => Some("kp_minus"@),
        Key::KpPlus => Some("kp_plus"@),
        Key::KpMultiply => Some("kp_multiply"@),
        Key::KpDivide => Some("kp_divide"@),
        Key::Kp0 => Some("kp_0"@),
        Key::Kp1 => Some("kp_1"@),
        Key::Kp2 => Some("kp_2"@),
        Key::Kp3 => Some("kp_3"@),
        Key::Kp4 => Some("kp_4"@),
        Key::Kp5 => Some("kp_5"@),
        Key::Kp6 => Some("kp_6"@),
        Key::Kp7 => Some("kp_7"@),
        Key::Kp8 => Some("kp_8"@),
        Key::Kp9 => Some("kp_9"@),
        Key::KpDelete => Some("kp_delete"@),
        Key::Function => Some("function"@),
        Key::Unknown(_) => None,
    }
}

/// The raw numeric code reported when `key` has no table entry. The
/// international backslash key is reported under its fixed platform
/// code.
pub open spec fn key_err_code(key: Key) -> u32 {
    match key {
        Key::IntlBackslash => 226,
        Key::Unknown(code) => code,
        _ => 0,
    }
}

/// The canonical identifier of `button`, or `None` where the table has
/// no entry for it. Three extra buttons are addressed by their
/// secondary numeric code.
pub open spec fn button_name(button: Button) -> Option<Seq<char>> {
    match button {
        Button::Left => Some("mouse_left"@),
        Button::Right => Some("mouse_right"@),
        Button::Middle => Some("mouse_middle"@),
        Button::Unknown(code) => if code == 1 {
            Some("mouse_4"@)
        } else if code == 2 {
            Some("mouse_5"@)
        } else if code == 3 {
            Some("mouse_6"@)
        } else {
            None
        },
    }
}

/// The raw numeric code reported when `button` has no table entry.
pub open spec fn button_err_code(button: Button) -> u32 {
    match button {
        Button::Unknown(code) => code as u32,
        _ => 0,
    }
}

/// Resolves a keyboard key to its canonical identifier, or reports the
/// raw numeric code of an unmapped key.
pub fn get_key_name(key: Key) -> (r: Result<&'static str, u32>)
    ensures
        r is Ok <==> key_name(key) is Some,
        r matches Ok(n) ==> key_name(key) == Some(n@),
        r matches Err(code) ==> code == key_err_code(key),
{
    match key {
        Key::Alt => Ok("alt_left"),
        Key::AltGr => Ok("alt_right"),
        Key::Backspace => Ok("backspace"),
        Key::CapsLock => Ok("caps_lock"),
        Key::ControlLeft => Ok("control_left"),
        Key::ControlRight => Ok("control_right"),
        Key::Delete => Ok("delete"),
        Key::DownArrow => Ok("down_arrow"),
        Key::End => Ok("end"),
        Key::Escape => Ok("escape"),
        Key::F1 => Ok("f1"),
        Key::F10 => Ok("f10"),
        Key::F11 => Ok("f11"),
        Key::F12 => Ok("f12"),
        Key::F2 => Ok("f2"),
        Key::F3 => Ok("f3"),
        Key::F4 => Ok("f4"),
        Key::F5 => Ok("f5"),
        Key::F6 => Ok("f6"),
        Key::F7 => Ok("f7"),
        Key::F8 => Ok("f8"),
        Key::F9 => Ok("f9"),
        Key::Home => Ok("home"),
        Key::LeftArrow => Ok("left_arrow"),
        Key::MetaLeft => Ok("meta_left"),
        Key::MetaRight => Ok("meta_right"),
        Key::PageDown => Ok("page_down"),
        Key::PageUp => Ok("page_up"),
        Key::Return => Ok("return"),
        Key::RightArrow => Ok("right_arrow"),
        Key::ShiftLeft => Ok("shift_left"),
        Key::ShiftRight => Ok("shift_right"),
        Key::Space => Ok("space"),
        Key::Tab => Ok("tab"),
        Key::UpArrow => Ok("up_arrow"),
        Key::PrintScreen => Ok("print_screen"),
        Key::ScrollLock => Ok("scroll_lock"),
        Key::Pause => Ok("pause"),
        Key::NumLock => Ok("num_lock"),
        Key::BackQuote => Ok("back_quote"),
        Key::Num1 => Ok("1"),
        Key::Num2 => Ok("2"),
        Key::Num3 => Ok("3"),
        Key::Num4 => Ok("4"),
        Key::Num5 => Ok("5"),
        Key::Num6 => Ok("6"),
        Key::Num7 => Ok("7"),
        Key::Num8 => Ok("8"),
        Key::Num9 => Ok("9"),
        Key::Num0 => Ok("0"),
        Key::Minus => Ok("minus"),
        Key::Equal => Ok("equal"),
        Key::KeyQ => Ok("q"),
        Key::KeyW => Ok("w"),
        Key::KeyE => Ok("e"),
        Key::KeyR => Ok("r"),
        Key::KeyT => Ok("t"),
        Key::KeyY => Ok("y"),
        Key::KeyU => Ok("u"),
        Key::KeyI => Ok("i"),
        Key::KeyO => Ok("o"),
        Key::KeyP => Ok("p"),
        Key::LeftBracket => Ok("left_bracket"),
        Key::RightBracket => Ok("right_bracket"),
        Key::KeyA => Ok("a"),
        Key::KeyS => Ok("s"),
        Key::KeyD => Ok("d"),
        Key::KeyF => Ok("f"),
        Key::KeyG => Ok("g"),
        Key::KeyH => Ok("h"),
        Key::KeyJ => Ok("j"),
        Key::KeyK => Ok("k"),
        Key::KeyL => Ok("l"),
        Key::SemiColon => Ok("semicolon"),
        Key::Quote => Ok("quote"),
        Key::BackSlash => Ok("backslash"),
        Key::IntlBackslash => Err(226),
        Key::KeyZ => Ok("z"),
        Key::KeyX => Ok("x"),
        Key::KeyC => Ok("c"),
        Key::KeyV => Ok("v"),
        Key::KeyB => Ok("b"),
        Key::KeyN => Ok("n"),
        Key::KeyM => Ok("m"),
        Key::Comma => Ok("comma"),
        Key::Dot => Ok("dot"),
        Key::Slash => Ok("slash"),
        Key::Insert => Ok("insert"),
        Key::KpReturn => Ok("kp_return"),
        Key::KpMinus => Ok("kp_minus"),
        Key::KpPlus => Ok("kp_plus"),
        Key::KpMultiply => Ok("kp_multiply"),
        Key::KpDivide => Ok("kp_divide"),
        Key::Kp0 => Ok("kp_0"),
        Key::Kp1 => Ok("kp_1"),
        Key::Kp2 => Ok("kp_2"),
        Key::Kp3 => Ok("kp_3"),
        Key::Kp4 => Ok("kp_4"),
        Key::Kp5 => Ok("kp_5"),
        Key::Kp6 => Ok("kp_6"),
        Key::Kp7 => Ok("kp_7"),
        Key::Kp8 => Ok("kp_8"),
        Key::Kp9 => Ok("kp_9"),
        Key::KpDelete => Ok("kp_delete"),
        Key::Function => Ok("function"),
        Key::Unknown(code) => Err(code),
    }
}

/// Resolves a mouse button to its canonical identifier, or reports the
/// raw numeric code of an unmapped button.
pub fn get_mouse_button_name(button: Button) -> (r: Result<&'static str, u32>)
    ensures
        r is Ok <==> button_name(button) is Some,
        r matches Ok(n) ==> button_name(button) == Some(n@),
        r matches Err(code) ==> code == button_err_code(button),
{
    match button {
        Button::Left => Ok("mouse_left"),
        Button::Right => Ok("mouse_right"),
        Button::Middle => Ok("mouse_middle"),
        Button::Unknown(code) => match code {
            1 => Ok("mouse_4"),
            2 => Ok("mouse_5"),
            3 => Ok("mouse_6"),
            _ => Err(code as u32),
        },
    }
}

} // verus!
