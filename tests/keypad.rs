use chip8::keypad::Keypad;

#[test]
fn keys_start_up_and_follow_set_down() {
    let mut keypad = Keypad::default();
    assert_eq!(None, keypad.get_down_key());
    keypad.set_down(0xA, true);
    assert!(keypad.is_down(0xA));
    assert!(!keypad.is_down(0xB));
    keypad.set_down(0xA, false);
    assert!(!keypad.is_down(0xA));
}

#[test]
fn first_down_key_is_the_lowest() {
    let mut keypad = Keypad::default();
    keypad.set_down(15, true);
    assert_eq!(Some(15), keypad.get_down_key());
    keypad.set_down(3, true);
    keypad.set_down(9, true);
    assert_eq!(Some(3), keypad.get_down_key());
    keypad.set_down(0, true);
    assert_eq!(Some(0), keypad.get_down_key());
}
