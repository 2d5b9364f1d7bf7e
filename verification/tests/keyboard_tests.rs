use rustodrive::gamepad::Button;
use rustodrive::keyboard::{default_buttons, KeyboardRecieve};

#[test]
fn test_button_conversion() {
    let kb = KeyboardRecieve::new(String::from("/keyboard_input"), default_buttons());
    assert_eq!(Button::FORWARD, kb.translate(&'w'));
    assert_eq!(Button::UNDEFINED, kb.translate(&'%'));
}

#[test]
fn test_default_button_layout() {
    let buttons = default_buttons();
    assert_eq!(buttons.get(&'a'), Some(&Button::LEFT));
    assert_eq!(buttons.get(&'s'), Some(&Button::BACKWARD));
    assert_eq!(buttons.get(&'d'), Some(&Button::RIGHT));
    assert_eq!(buttons.get(&'<'), Some(&Button::CCW));
    assert_eq!(buttons.get(&'>'), Some(&Button::CW));
    assert_eq!(buttons.get(&'t'), Some(&Button::MODE_SHIFT));
    assert_eq!(buttons.len(), 7);
}
