use thompson_rust_os::keyboard::{Key, ScancodeDecoder};

#[test]
fn printable_key_press_round_trips_to_its_character() {
    let mut decoder = ScancodeDecoder::new();
    // Scancode 0x1E: the A key pressed, in set 1.
    let event = decoder.add_byte(0x1e).expect("a press completes an event");
    let key = decoder.process_keyevent(event);
    assert_eq!(key, Some(Key::Unicode('a')));
}

#[test]
fn modifier_press_decodes_no_character() {
    let mut decoder = ScancodeDecoder::new();
    // Scancode 0x2A: the left shift key pressed.
    let event = decoder.add_byte(0x2a).expect("a press completes an event");
    let key = decoder.process_keyevent(event);
    assert_eq!(key, None);
}

#[test]
fn shift_changes_the_mapping() {
    let mut decoder = ScancodeDecoder::new();
    let shift_down = decoder.add_byte(0x2a).unwrap();
    assert_eq!(decoder.process_keyevent(shift_down), None);
    let a_down = decoder.add_byte(0x1e).unwrap();
    assert_eq!(decoder.process_keyevent(a_down), Some(Key::Unicode('A')));
    let shift_up = decoder.add_byte(0x2a + 0x80).unwrap();
    assert_eq!(decoder.process_keyevent(shift_up), None);
    let a_down = decoder.add_byte(0x1e).unwrap();
    assert_eq!(decoder.process_keyevent(a_down), Some(Key::Unicode('a')));
}

#[test]
fn key_release_decodes_no_character() {
    let mut decoder = ScancodeDecoder::new();
    // Scancode 0x9E: the A key released (0x1E with the release bit).
    let event = decoder.add_byte(0x9e).expect("a release completes an event");
    let key = decoder.process_keyevent(event);
    assert_eq!(key, None);
}

#[test]
fn extended_prefix_byte_yields_no_event() {
    let mut decoder = ScancodeDecoder::new();
    // 0xE0 opens a two-byte sequence: no event until the second byte.
    assert!(decoder.add_byte(0xe0).is_none());
    let event = decoder.add_byte(0x48).expect("the second byte completes the event");
    let key = decoder.process_keyevent(event);
    assert_eq!(key, Some(Key::RawKey("ArrowUp".to_string())));
}

#[test]
fn undefined_scancode_yields_no_event() {
    let mut decoder = ScancodeDecoder::new();
    // 0x55 is not a defined code of set 1.
    assert!(decoder.add_byte(0x55).is_none());
    // The decoder keeps working afterwards.
    let event = decoder.add_byte(0x1e).expect("a press completes an event");
    assert_eq!(decoder.process_keyevent(event), Some(Key::Unicode('a')));
}

#[test]
fn enter_maps_to_a_line_feed() {
    let mut decoder = ScancodeDecoder::new();
    let event = decoder.add_byte(0x1c).unwrap();
    assert_eq!(decoder.process_keyevent(event), Some(Key::Unicode('\n')));
}
