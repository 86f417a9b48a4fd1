use rusty_boy_core::keypad::{Key, Keypad};


#[test]
fn test_keypad_is_pressed() {
    let mut keypad = Keypad::new();
    keypad.press(Key::Right);
    assert_eq!(keypad.is_pressed(Key::Right), true);
}

#[test]
fn test_keypad_is_not_pressed() {
    let keypad = Keypad::new();
    assert_eq!(keypad.is_pressed(Key::Left), false);
}

#[test]
fn keypad_row_selection_reads_only_selected_row() {
    let mut keypad = Keypad::new();
    keypad.press(Key::A);
    // Select the direction row only: the action key does not show.
    keypad.write(0x20);
    assert_eq!(keypad.read() & 0x0F, 0x0F);
    // Select the action row: A shows as bit 0 low.
    keypad.write(0x10);
    assert_eq!(keypad.read() & 0x0F, 0x0E);
    assert_eq!(keypad.read() & 0xC0, 0xC0);
}

#[test]
fn test_keypad_press() {
    let mut keypad = Keypad::new();
    keypad.write(0x20);
    keypad.press(Key::Right);
    assert_eq!(keypad.read(), 0b1110_1110);
}

#[test]
fn test_keypad_release() {
    let mut keypad = Keypad::new();
    keypad.write(0x20);
    keypad.press(Key::Right);
    keypad.press(Key::Left);
    keypad.release(Key::Right);
    assert_eq!(keypad.read(), 0b1110_1101);
}

#[test]
fn test_keypad_interrupt() {
    let mut keypad = Keypad::new();
    keypad.write(0x20);
    keypad.press(Key::Right);
    assert_eq!(keypad.interrupt, 0x10);
}

#[test]
fn press_with_no_row_selected_is_silent() {
    let mut keypad = Keypad::new();
    keypad.press(Key::Right);
    assert_eq!(keypad.read(), 0xFF);
    assert_eq!(keypad.interrupt, 0x00);
}
