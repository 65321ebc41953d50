use input_portal::keys::Button;
use input_portal::keys::Key;
use input_portal::keys::get_key_name;
use input_portal::keys::get_mouse_button_name;

#[test]
fn letter_and_digit_keys_have_names() {
    assert_eq!(get_key_name(Key::KeyA), Ok("a"));
    assert_eq!(get_key_name(Key::KeyP), Ok("p"));
    assert_eq!(get_key_name(Key::KeyZ), Ok("z"));
    assert_eq!(get_key_name(Key::Num1), Ok("1"));
    assert_eq!(get_key_name(Key::Num0), Ok("0"));
}

#[test]
fn function_and_navigation_keys_have_names() {
    assert_eq!(get_key_name(Key::F1), Ok("f1"));
    assert_eq!(get_key_name(Key::F10), Ok("f10"));
    assert_eq!(get_key_name(Key::F12), Ok("f12"));
    assert_eq!(get_key_name(Key::Home), Ok("home"));
    assert_eq!(get_key_name(Key::PageDown), Ok("page_down"));
    assert_eq!(get_key_name(Key::UpArrow), Ok("up_arrow"));
    assert_eq!(get_key_name(Key::DownArrow), Ok("down_arrow"));
}

#[test]
fn modifier_keys_have_left_and_right_variants() {
    assert_eq!(get_key_name(Key::Alt), Ok("alt_left"));
    assert_eq!(get_key_name(Key::AltGr), Ok("alt_right"));
    assert_eq!(get_key_name(Key::ControlLeft), Ok("control_left"));
    assert_eq!(get_key_name(Key::ControlRight), Ok("control_right"));
    assert_eq!(get_key_name(Key::ShiftLeft), Ok("shift_left"));
    assert_eq!(get_key_name(Key::ShiftRight), Ok("shift_right"));
    assert_eq!(get_key_name(Key::MetaLeft), Ok("meta_left"));
    assert_eq!(get_key_name(Key::MetaRight), Ok("meta_right"));
}

#[test]
fn keypad_keys_and_operators_have_names() {
    assert_eq!(get_key_name(Key::Kp0), Ok("kp_0"));
    assert_eq!(get_key_name(Key::Kp9), Ok("kp_9"));
    assert_eq!(get_key_name(Key::KpPlus), Ok("kp_plus"));
    assert_eq!(get_key_name(Key::KpMultiply), Ok("kp_multiply"));
    assert_eq!(get_key_name(Key::KpReturn), Ok("kp_return"));
    assert_eq!(get_key_name(Key::KpDelete), Ok("kp_delete"));
}

#[test]
fn punctuation_keys_have_names() {
    assert_eq!(get_key_name(Key::Minus), Ok("minus"));
    assert_eq!(get_key_name(Key::Equal), Ok("equal"));
    assert_eq!(get_key_name(Key::SemiColon), Ok("semicolon"));
    assert_eq!(get_key_name(Key::Quote), Ok("quote"));
    assert_eq!(get_key_name(Key::Comma), Ok("comma"));
    assert_eq!(get_key_name(Key::Dot), Ok("dot"));
    assert_eq!(get_key_name(Key::Slash), Ok("slash"));
    assert_eq!(get_key_name(Key::BackQuote), Ok("back_quote"));
}

#[test]
fn unmapped_keys_report_their_raw_code() {
    assert_eq!(get_key_name(Key::Unknown(12345)), Err(12345));
    assert_eq!(get_key_name(Key::Unknown(0)), Err(0));
    assert_eq!(get_key_name(Key::IntlBackslash), Err(226));
}

#[test]
fn standard_mouse_buttons_have_names() {
    assert_eq!(get_mouse_button_name(Button::Left), Ok("mouse_left"));
    assert_eq!(get_mouse_button_name(Button::Right), Ok("mouse_right"));
    assert_eq!(get_mouse_button_name(Button::Middle), Ok("mouse_middle"));
}

#[test]
fn extra_mouse_buttons_use_secondary_codes() {
    assert_eq!(get_mouse_button_name(Button::Unknown(1)), Ok("mouse_4"));
    assert_eq!(get_mouse_button_name(Button::Unknown(2)), Ok("mouse_5"));
    assert_eq!(get_mouse_button_name(Button::Unknown(3)), Ok("mouse_6"));
}

#[test]
fn unmapped_mouse_buttons_report_their_raw_code() {
    assert_eq!(get_mouse_button_name(Button::Unknown(9)), Err(9));
    assert_eq!(get_mouse_button_name(Button::Unknown(255)), Err(255));
}
