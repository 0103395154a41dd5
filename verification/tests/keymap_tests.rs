use simplyscriptor2::event::Key;
use simplyscriptor2::keymap::{key_from_keycode, keycode_from_key};

#[test]
fn shortcut_keycodes_map_to_shortcut_keys() {
    assert_eq!(key_from_keycode(0x2B), Key::Comma);
    assert_eq!(key_from_keycode(0x2F), Key::Dot);
    assert_eq!(key_from_keycode(0x2C), Key::Slash);
}

#[test]
fn letter_and_function_keycodes() {
    assert_eq!(key_from_keycode(0x00), Key::KeyA);
    assert_eq!(key_from_keycode(0x31), Key::Space);
    assert_eq!(key_from_keycode(0x7A), Key::F1);
    assert_eq!(key_from_keycode(0x7E), Key::UpArrow);
}

#[test]
fn unmapped_keycode_is_preserved_as_unknown() {
    assert_eq!(key_from_keycode(0x34), Key::Unknown(0x34));
    assert_eq!(key_from_keycode(0x36), Key::Unknown(0x36));
    assert_eq!(key_from_keycode(0x1234), Key::Unknown(0x1234));
    assert_eq!(keycode_from_key(Key::Unknown(0x34)), None);
}

#[test]
fn keys_outside_the_table_have_no_keycode() {
    assert_eq!(keycode_from_key(Key::Kp5), None);
    assert_eq!(keycode_from_key(Key::PrintScreen), None);
}

#[test]
fn keycode_roundtrip_over_the_whole_table() {
    for code in 0u16..0x100 {
        let key = key_from_keycode(code);
        match keycode_from_key(key) {
            Some(back) => assert_eq!(back, code),
            None => assert_eq!(key, Key::Unknown(code as u32)),
        }
    }
}

#[test]
fn key_roundtrip_for_named_keys() {
    let samples = [
        Key::KeyA,
        Key::Return,
        Key::Comma,
        Key::Dot,
        Key::Slash,
        Key::F12,
        Key::UpArrow,
        Key::MetaLeft,
    ];
    for key in samples {
        let code = keycode_from_key(key).unwrap();
        assert_eq!(key_from_keycode(code), key);
    }
}
