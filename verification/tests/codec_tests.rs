use remote_keyboard::codec::{decode_event, encode, read_char, write_char, DecodeError, EncodeError};
use remote_keyboard::keys::{
    mode_of_symbol, symbol_of_mode, KeyAction, KeyEvent, KeySymbol, MODE_CHAR, MODE_TAB,
    STATE_PRESSED, STATE_RELEASED,
};

fn named_symbols() -> Vec<KeySymbol> {
    vec![
        KeySymbol::Ctrl,
        KeySymbol::Shift,
        KeySymbol::Alt,
        KeySymbol::Backspace,
        KeySymbol::CapsLock,
        KeySymbol::Delete,
        KeySymbol::Down,
        KeySymbol::Up,
        KeySymbol::Left,
        KeySymbol::Right,
        KeySymbol::End,
        KeySymbol::Escape,
        KeySymbol::F1,
        KeySymbol::F2,
        KeySymbol::F3,
        KeySymbol::F4,
        KeySymbol::F5,
        KeySymbol::F6,
        KeySymbol::F7,
        KeySymbol::F8,
        KeySymbol::F9,
        KeySymbol::F10,
        KeySymbol::F11,
        KeySymbol::F12,
        KeySymbol::F13,
        KeySymbol::F14,
        KeySymbol::F15,
        KeySymbol::F16,
        KeySymbol::F17,
        KeySymbol::F18,
        KeySymbol::F19,
        KeySymbol::F20,
        KeySymbol::Help,
        KeySymbol::Home,
        KeySymbol::Meta,
        KeySymbol::OptionKey,
        KeySymbol::PageDown,
        KeySymbol::PageUp,
        KeySymbol::Return,
        KeySymbol::Space,
        KeySymbol::Tab,
    ]
}

#[test]
fn round_trip_every_symbol_and_action() {
    let mut symbols = named_symbols();
    for c in 0u8..=127u8 {
        symbols.push(KeySymbol::Char(c));
    }
    for symbol in symbols {
        for action in [KeyAction::Pressed, KeyAction::Released] {
            let event = KeyEvent { action, symbol };
            let bytes = encode(&event).expect("well-formed event must encode");
            let (decoded, consumed) = decode_event(&bytes, 0).expect("frame must decode");
            assert_eq!(decoded, event);
            assert_eq!(consumed, bytes.len());
        }
    }
}

#[test]
fn ascii_boundary() {
    for c in 0u8..=127u8 {
        let event = KeyEvent { action: KeyAction::Pressed, symbol: KeySymbol::Char(c) };
        let bytes = encode(&event).expect("ASCII character must encode");
        assert_eq!(bytes, vec![STATE_PRESSED, MODE_CHAR, c]);
    }
    for c in 128u8..=255u8 {
        let event = KeyEvent { action: KeyAction::Pressed, symbol: KeySymbol::Char(c) };
        assert_eq!(encode(&event), Err(EncodeError::NonAsciiChar(c as u32)));
    }
}

#[test]
fn unknown_mode_rejected() {
    let bytes: [u8; 2] = [STATE_PRESSED, 255];
    assert_eq!(decode_event(&bytes, 0), Err(DecodeError::InvalidMode(255)));
    // The verdict must not depend on any byte after the header.
    let with_trailing: [u8; 4] = [STATE_PRESSED, 255, 65, 65];
    assert_eq!(decode_event(&with_trailing, 0), Err(DecodeError::InvalidMode(255)));
    let just_past_table: [u8; 2] = [STATE_RELEASED, MODE_TAB + 1];
    assert_eq!(decode_event(&just_past_table, 0), Err(DecodeError::InvalidMode(MODE_TAB + 1)));
}

#[test]
fn clean_shutdown_on_empty_source() {
    let bytes: [u8; 0] = [];
    assert_eq!(decode_event(&bytes, 0), Err(DecodeError::EndOfStream));
    // A source that closes after a single byte is still a clean end.
    let one_byte: [u8; 1] = [STATE_PRESSED];
    assert_eq!(decode_event(&one_byte, 0), Err(DecodeError::EndOfStream));
}

#[test]
fn truncated_character_frame_is_hard_error() {
    let bytes: [u8; 2] = [STATE_PRESSED, MODE_CHAR];
    assert_eq!(decode_event(&bytes, 0), Err(DecodeError::TruncatedFrame));
}

#[test]
fn invalid_state_rejected() {
    let bytes: [u8; 3] = [2, MODE_CHAR, 65];
    assert_eq!(decode_event(&bytes, 0), Err(DecodeError::InvalidState(2)));
}

#[test]
fn non_ascii_character_byte_rejected() {
    let bytes: [u8; 3] = [STATE_PRESSED, MODE_CHAR, 200];
    assert_eq!(decode_event(&bytes, 0), Err(DecodeError::InvalidChar(200)));
}

#[test]
fn decode_walks_consecutive_frames() {
    let bytes: [u8; 5] = [STATE_PRESSED, MODE_CHAR, 65, STATE_RELEASED, MODE_TAB];
    let (first, after_first) = decode_event(&bytes, 0).expect("first frame");
    assert_eq!(first, KeyEvent { action: KeyAction::Pressed, symbol: KeySymbol::Char(65) });
    assert_eq!(after_first, 3);
    let (second, after_second) = decode_event(&bytes, after_first).expect("second frame");
    assert_eq!(second, KeyEvent { action: KeyAction::Released, symbol: KeySymbol::Tab });
    assert_eq!(after_second, 5);
    assert_eq!(decode_event(&bytes, after_second), Err(DecodeError::EndOfStream));
}

#[test]
fn mode_table_exact_values() {
    assert_eq!(mode_of_symbol(&KeySymbol::Char(65)), 0);
    assert_eq!(mode_of_symbol(&KeySymbol::Ctrl), 1);
    assert_eq!(mode_of_symbol(&KeySymbol::Shift), 2);
    assert_eq!(mode_of_symbol(&KeySymbol::Alt), 3);
    assert_eq!(mode_of_symbol(&KeySymbol::Backspace), 4);
    assert_eq!(mode_of_symbol(&KeySymbol::CapsLock), 5);
    assert_eq!(mode_of_symbol(&KeySymbol::Delete), 6);
    assert_eq!(mode_of_symbol(&KeySymbol::Down), 7);
    assert_eq!(mode_of_symbol(&KeySymbol::Up), 8);
    assert_eq!(mode_of_symbol(&KeySymbol::Left), 9);
    assert_eq!(mode_of_symbol(&KeySymbol::Right), 10);
    assert_eq!(mode_of_symbol(&KeySymbol::End), 11);
    assert_eq!(mode_of_symbol(&KeySymbol::Escape), 12);
    assert_eq!(mode_of_symbol(&KeySymbol::F1), 13);
    assert_eq!(mode_of_symbol(&KeySymbol::F20), 32);
    assert_eq!(mode_of_symbol(&KeySymbol::Help), 33);
    assert_eq!(mode_of_symbol(&KeySymbol::Home), 34);
    assert_eq!(mode_of_symbol(&KeySymbol::Meta), 35);
    assert_eq!(mode_of_symbol(&KeySymbol::OptionKey), 36);
    assert_eq!(mode_of_symbol(&KeySymbol::PageDown), 37);
    assert_eq!(mode_of_symbol(&KeySymbol::PageUp), 38);
    assert_eq!(mode_of_symbol(&KeySymbol::Return), 39);
    assert_eq!(mode_of_symbol(&KeySymbol::Space), 40);
    assert_eq!(mode_of_symbol(&KeySymbol::Tab), 41);
}

#[test]
fn mode_table_inverts() {
    for symbol in named_symbols() {
        let mode = mode_of_symbol(&symbol);
        assert!(0 < mode && mode <= MODE_TAB);
        assert_eq!(symbol_of_mode(mode), symbol);
    }
}

#[test]
fn write_char_appends_ascii() {
    let mut out: Vec<u8> = vec![9];
    assert_eq!(write_char(&mut out, 'A'), Ok(()));
    assert_eq!(out, vec![9, 65]);
}

#[test]
fn write_char_rejects_non_ascii() {
    let mut out: Vec<u8> = vec![9];
    let e = write_char(&mut out, 'é');
    assert_eq!(e, Err(EncodeError::NonAsciiChar('é' as u32)));
    assert_eq!(out, vec![9]);
}

#[test]
fn read_char_reads_one_ascii_byte() {
    let bytes: [u8; 2] = [65, 200];
    assert_eq!(read_char(&bytes, 0), Ok('A'));
    assert_eq!(read_char(&bytes, 1), Err(DecodeError::InvalidChar(200)));
    assert_eq!(read_char(&bytes, 2), Err(DecodeError::TruncatedFrame));
}
