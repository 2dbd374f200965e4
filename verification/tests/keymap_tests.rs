use remote_keyboard::codec::decode_event;
use remote_keyboard::keymap::{key_symbol_of_code, write_event, KeyCode};
use remote_keyboard::keys::{KeyAction, KeySymbol};

/// Decodes every complete frame of `wire` in order, as the host loop does,
/// and returns the injection calls it would make: (symbol, pressed).
fn host_injections(wire: &[u8]) -> Vec<(KeySymbol, bool)> {
    let mut calls: Vec<(KeySymbol, bool)> = Vec::new();
    let mut pos: usize = 0;
    loop {
        match decode_event(wire, pos) {
            Ok((event, next)) => {
                calls.push((event.symbol, event.action == KeyAction::Pressed));
                pos = next;
            }
            Err(e) => {
                assert_eq!(e, remote_keyboard::codec::DecodeError::EndOfStream);
                return calls;
            }
        }
    }
}

#[test]
fn end_to_end_scenario() {
    let mut wire: Vec<u8> = Vec::new();
    assert!(write_event(&mut wire, &KeyCode::A, true));
    assert_eq!(wire, vec![0, 0, 65]);
    assert!(write_event(&mut wire, &KeyCode::A, false));
    assert_eq!(wire, vec![0, 0, 65, 1, 0, 65]);
    let calls = host_injections(&wire);
    assert_eq!(
        calls,
        vec![(KeySymbol::Char(65), true), (KeySymbol::Char(65), false)]
    );
}

#[test]
fn pass_filter_produces_nothing_end_to_end() {
    let unmapped = [
        KeyCode::F21,
        KeyCode::F24,
        KeyCode::Snapshot,
        KeyCode::Insert,
        KeyCode::Numlock,
        KeyCode::Compose,
        KeyCode::VolumeUp,
        KeyCode::CopyKey,
    ];
    let mut wire: Vec<u8> = Vec::new();
    for code in unmapped {
        assert_eq!(key_symbol_of_code(&code), None);
        assert!(!write_event(&mut wire, &code, true));
        assert!(!write_event(&mut wire, &code, false));
    }
    assert_eq!(wire, Vec::<u8>::new());
    assert_eq!(host_injections(&wire), Vec::new());
}

#[test]
fn mapped_codes_follow_the_table() {
    assert_eq!(key_symbol_of_code(&KeyCode::Key1), Some(KeySymbol::Char(b'1')));
    assert_eq!(key_symbol_of_code(&KeyCode::Z), Some(KeySymbol::Char(b'Z')));
    assert_eq!(key_symbol_of_code(&KeyCode::Back), Some(KeySymbol::Backspace));
    assert_eq!(key_symbol_of_code(&KeyCode::Capital), Some(KeySymbol::CapsLock));
    assert_eq!(key_symbol_of_code(&KeyCode::NumpadEnter), Some(KeySymbol::Return));
    assert_eq!(key_symbol_of_code(&KeyCode::Numpad7), Some(KeySymbol::Char(b'7')));
    assert_eq!(key_symbol_of_code(&KeyCode::LControl), Some(KeySymbol::Ctrl));
    assert_eq!(key_symbol_of_code(&KeyCode::RShift), Some(KeySymbol::Shift));
    assert_eq!(key_symbol_of_code(&KeyCode::LWin), Some(KeySymbol::Meta));
    assert_eq!(key_symbol_of_code(&KeyCode::RWin), Some(KeySymbol::Meta));
    assert_eq!(key_symbol_of_code(&KeyCode::Grave), Some(KeySymbol::Char(b'`')));
    assert_eq!(key_symbol_of_code(&KeyCode::F20), Some(KeySymbol::F20));
    assert_eq!(key_symbol_of_code(&KeyCode::Escape), Some(KeySymbol::Escape));
}

#[test]
fn named_key_frames_are_two_bytes() {
    let mut wire: Vec<u8> = Vec::new();
    assert!(write_event(&mut wire, &KeyCode::Tab, true));
    assert_eq!(wire, vec![0, 41]);
    assert!(write_event(&mut wire, &KeyCode::Escape, false));
    assert_eq!(wire, vec![0, 41, 1, 12]);
    let calls = host_injections(&wire);
    assert_eq!(
        calls,
        vec![(KeySymbol::Tab, true), (KeySymbol::Escape, false)]
    );
}
