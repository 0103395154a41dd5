use simplyscriptor2::codec::{deserialize, serialize, DecodeError};
use simplyscriptor2::engine::Engine;
use simplyscriptor2::event::{Action, Button, InputEvent, Key};

fn ev(timestamp: u64, action: Action) -> InputEvent {
    InputEvent { timestamp, action }
}

#[test]
fn empty_buffer_roundtrip() {
    let events: Vec<InputEvent> = Vec::new();
    let bytes = serialize(&events);
    assert_eq!(bytes.len(), 8);
    let decoded = deserialize(&bytes).unwrap();
    assert!(decoded.is_empty());
}

#[test]
fn all_variants_roundtrip() {
    let events = vec![
        ev(0, Action::KeyPress(Key::KeyA)),
        ev(1, Action::KeyRelease(Key::Function)),
        ev(2, Action::KeyPress(Key::Unknown(0xDEADBEEF))),
        ev(3, Action::ButtonPress(Button::Left)),
        ev(4, Action::ButtonRelease(Button::Middle)),
        ev(5, Action::ButtonPress(Button::Unknown(200))),
        ev(6, Action::MouseMove { x: u64::MAX, y: 0x4049_0FDB_0000_0000 }),
        ev(7, Action::Wheel { delta_x: -12, delta_y: i64::MIN }),
        ev(u64::MAX, Action::KeyRelease(Key::Comma)),
    ];
    let bytes = serialize(&events);
    let decoded = deserialize(&bytes).unwrap();
    assert_eq!(decoded, events);
}

#[test]
fn exact_encoding_of_one_record() {
    let events = vec![ev(0x0102, Action::KeyPress(Key::Alt))];
    let bytes = serialize(&events);
    let mut expected = vec![1, 0, 0, 0, 0, 0, 0, 0];
    expected.extend_from_slice(&[0x02, 0x01, 0, 0, 0, 0, 0, 0]);
    expected.push(0);
    expected.extend_from_slice(&[0; 16]);
    assert_eq!(bytes, expected);
}

#[test]
fn truncated_input_rejected() {
    let bytes = vec![1, 2, 3];
    assert_eq!(deserialize(&bytes), Err(DecodeError::Truncated));
    let empty: Vec<u8> = Vec::new();
    assert_eq!(deserialize(&empty), Err(DecodeError::Truncated));
}

#[test]
fn wrong_length_rejected() {
    let mut bytes = vec![1, 0, 0, 0, 0, 0, 0, 0];
    bytes.extend_from_slice(&[0; 10]);
    assert_eq!(deserialize(&bytes), Err(DecodeError::WrongLength));

    let mut bytes = vec![0xFF; 8];
    bytes.extend_from_slice(&[0; 25]);
    assert_eq!(deserialize(&bytes), Err(DecodeError::WrongLength));
}

#[test]
fn bad_tag_rejected() {
    let mut bytes = vec![1, 0, 0, 0, 0, 0, 0, 0];
    let mut record = [0u8; 25];
    record[8] = 99;
    bytes.extend_from_slice(&record);
    assert_eq!(deserialize(&bytes), Err(DecodeError::BadRecord));
}

#[test]
fn bad_key_index_rejected() {
    let mut bytes = vec![1, 0, 0, 0, 0, 0, 0, 0];
    let mut record = [0u8; 25];
    record[8] = 0;
    record[9] = 200;
    bytes.extend_from_slice(&record);
    assert_eq!(deserialize(&bytes), Err(DecodeError::BadRecord));
}

#[test]
fn save_script_snapshots_buffer() {
    let mut engine = Engine::new();
    engine.buffer.push(ev(9, Action::ButtonPress(Button::Right)));
    let bytes = engine.save_script();
    let decoded = deserialize(&bytes).unwrap();
    assert_eq!(decoded, engine.buffer);
}

#[test]
fn load_script_replaces_buffer_wholesale() {
    let mut source = Engine::new();
    source.buffer.push(ev(1, Action::KeyPress(Key::KeyQ)));
    source.buffer.push(ev(2, Action::KeyRelease(Key::KeyQ)));
    let bytes = source.save_script();

    let mut engine = Engine::new();
    engine.buffer.push(ev(77, Action::ButtonPress(Button::Left)));
    assert!(engine.load_script(&bytes).is_ok());
    assert_eq!(engine.buffer, source.buffer);
}

#[test]
fn failed_load_leaves_engine_untouched() {
    let mut engine = Engine::new();
    engine.buffer.push(ev(77, Action::ButtonPress(Button::Left)));
    let garbage = vec![9, 9, 9];
    assert_eq!(engine.load_script(&garbage), Err(DecodeError::Truncated));
    assert_eq!(engine.buffer.len(), 1);
    assert_eq!(engine.buffer[0], ev(77, Action::ButtonPress(Button::Left)));
}
