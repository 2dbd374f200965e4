//! The client-side pass-filter: from a captured virtual key code to the
//! protocol's symbol set, and from there onto the wire.
//!
//! [`KeyCode`] enumerates the virtual key codes an OS input source can
//! report. Only some of them have a [`KeySymbol`] mapping; the rest are
//! dropped silently — they produce no bytes at all, by design, so that the
//! client's filter and the host's mode table stay in lockstep by
//! construction. The mapping is deliberately a single closed table,
//! [`symbol_for`], shared by the executable filter and the proofs.

use vstd::prelude::*;

use crate::codec::spec_encode;
use crate::codec::spec_decode;
use crate::codec::DecodeError;
use crate::codec::lemma_round_trip;
use crate::keys::KeyEvent;
use crate::keys::KeySymbol;
use crate::keys::STATE_PRESSED;
use crate::keys::STATE_RELEASED;
use crate::keys::action_of_flag;
use crate::keys::mode_of_symbol;

verus! {

/// A virtual key code as reported by the OS input capture collaborator, one
/// variant per physical key it distinguishes.
///
/// This is the full set an input source can deliver, most of it unmapped;
/// which codes reach the wire is decided solely by [`symbol_for`].
#[derive(Clone, Copy, Debug, PartialEq, Eq, Structural)]
pub enum KeyCode {
    Key1,
    Key2,
    Key3,
    Key4,
    Key5,
    Key6,
    Key7,
    Key8,
    Key9,
    Key0,
    A,
    B,
    C,
    D,
    E,
    F,
    G,
    H,
    I,
    J,
    K,
    L,
    M,
    N,
    O,
    P,
    Q,
    R,
    S,
    T,
    U,
    V,
    W,
    X,
    Y,
    Z,
    Escape,
    F1,
    F2,
    F3,
    F4,
    F5,
    F6,
    F7,
    F8,
    F9,
    F10,
    F11,
    F12,
    F13,
    F14,
    F15,
    F16,
    F17,
    F18,
    F19,
    F20,
    F21,
    F22,
    F23,
    F24,
    Snapshot,
    Scroll,
    Pause,
    Insert,
    Home,
    Delete,
    End,
    PageDown,
    PageUp,
    Left,
    Up,
    Right,
    Down,
    Back,
    Return,
    Space,
    Compose,
    Caret,
    Numlock,
    Numpad0,
    Numpad1,
    Numpad2,
    Numpad3,
    Numpad4,
    Numpad5,
    Numpad6,
    Numpad7,
    Numpad8,
    Numpad9,
    NumpadAdd,
    NumpadDivide,
    NumpadDecimal,
    NumpadComma,
    NumpadEnter,
    NumpadEquals,
    NumpadMultiply,
    NumpadSubtract,
    AbntC1,
    AbntC2,
    Apostrophe,
    Apps,
    Asterisk,
    At,
    Ax,
    Backslash,
    Calculator,
    Capital,
    Colon,
    Comma,
    Convert,
    Equals,
    Grave,
    Kana,
    Kanji,
    LAlt,
    LBracket,
    LControl,
    LShift,
    LWin,
    Mail,
    MediaSelect,
    MediaStop,
    Minus,
    Mute,
    MyComputer,
    NavigateForward,
    NavigateBackward,
    NextTrack,
    NoConvert,
    OEM102,
    Period,
    PlayPause,
    Plus,
    Power,
    PrevTrack,
    RAlt,
    RBracket,
    RControl,
    RShift,
    RWin,
    Semicolon,
    Slash,
    Sleep,
    Stop,
    Sysrq,
    Tab,
    Underline,
    Unlabeled,
    VolumeDown,
    VolumeUp,
    Wake,
    WebBack,
    WebFavorites,
    WebForward,
    WebHome,
    WebRefresh,
    WebSearch,
    WebStop,
    Yen,
    CopyKey,
    PasteKey,
    CutKey,
}

/// The pass-filter table: the symbol a key code is sent as, or `None` for the
/// codes that are dropped silently.
pub open spec fn symbol_for(code: KeyCode) -> Option<KeySymbol> {
    match code {
        KeyCode::Key1 => Some(KeySymbol::Char('1' as u8)),
        KeyCode::Key2 => Some(KeySymbol::Char('2' as u8)),
        KeyCode::Key3 => Some(KeySymbol::Char('3' as u8)),
        KeyCode::Key4 => Some(KeySymbol::Char('4' as u8)),
        KeyCode::Key5 => Some(KeySymbol::Char('5' as u8)),
        KeyCode::Key6 => Some(KeySymbol::Char('6' as u8)),
        KeyCode::Key7 => Some(KeySymbol::Char('7' as u8)),
        KeyCode::Key8 => Some(KeySymbol::Char('8' as u8)),
        KeyCode::Key9 => Some(KeySymbol::Char('9' as u8)),
        KeyCode::Key0 => Some(KeySymbol::Char('0' as u8)),
        KeyCode::A => Some(KeySymbol::Char('A' as u8)),
        KeyCode::B => Some(KeySymbol::Char('B' as u8)),
        KeyCode::C => Some(KeySymbol::Char('C' as u8)),
        KeyCode::D => Some(KeySymbol::Char('D' as u8)),
        KeyCode::E => Some(KeySymbol::Char('E' as u8)),
        KeyCode::F => Some(KeySymbol::Char('F' as u8)),
        KeyCode::G => Some(KeySymbol::Char('G' as u8)),
        KeyCode::H => Some(KeySymbol::Char('H' as u8)),
        KeyCode::I => Some(KeySymbol::Char('I' as u8)),
        KeyCode::J => Some(KeySymbol::Char('J' as u8)),
        KeyCode::K => Some(KeySymbol::Char('K' as u8)),
        KeyCode::L => Some(KeySymbol::Char('L' as u8)),
        KeyCode::M => Some(KeySymbol::Char('M' as u8)),
        KeyCode::N => Some(KeySymbol::Char('N' as u8)),
        KeyCode::O => Some(KeySymbol::Char('O' as u8)),
        KeyCode::P => Some(KeySymbol::Char('P' as u8)),
        KeyCode::Q => Some(KeySymbol::Char('Q' as u8)),
        KeyCode::R => Some(KeySymbol::Char('R' as u8)),
        KeyCode::S => Some(KeySymbol::Char('S' as u8)),
        KeyCode::T => Some(KeySymbol::Char('T' as u8)),
        KeyCode::U => Some(KeySymbol::Char('U' as u8)),
        KeyCode::V => Some(KeySymbol::Char('V' as u8)),
        KeyCode::W => Some(KeySymbol::Char('W' as u8)),
        KeyCode::X => Some(KeySymbol::Char('X' as u8)),
        KeyCode::Y => Some(KeySymbol::Char('Y' as u8)),
        KeyCode::Z => Some(KeySymbol::Char('Z' as u8)),
        KeyCode::Escape => Some(KeySymbol::Escape),
        KeyCode::F1 => Some(KeySymbol::F1),
        KeyCode::F2 => Some(KeySymbol::F2),
        KeyCode::F3 => Some(KeySymbol::F3),
        KeyCode::F4 => Some(KeySymbol::F4),
        KeyCode::F5 => Some(KeySymbol::F5),
        KeyCode::F6 => Some(KeySymbol::F6),
        KeyCode::F7 => Some(KeySymbol::F7),
        KeyCode::F8 => Some(KeySymbol::F8),
        KeyCode::F9 => Some(KeySymbol::F9),
        KeyCode::F10 => Some(KeySymbol::F10),
        KeyCode::F11 => Some(KeySymbol::F11),
        KeyCode::F12 => Some(KeySymbol::F12),
        KeyCode::F13 => Some(KeySymbol::F13),
        KeyCode::F14 => Some(KeySymbol::F14),
        KeyCode::F15 => Some(KeySymbol::F15),
        KeyCode::F16 => Some(KeySymbol::F16),
        KeyCode::F17 => Some(KeySymbol::F17),
        KeyCode::F18 => Some(KeySymbol::F18),
        KeyCode::F19 => Some(KeySymbol::F19),
        KeyCode::F20 => Some(KeySymbol::F20),
        KeyCode::Home => Some(KeySymbol::Home),
        KeyCode::Delete => Some(KeySymbol::Delete),
        KeyCode::End => Some(KeySymbol::End),
        KeyCode::PageDown => Some(KeySymbol::PageDown),
        KeyCode::PageUp => Some(KeySymbol::PageUp),
        KeyCode::Left => Some(KeySymbol::Left),
        KeyCode::Up => Some(KeySymbol::Up),
        KeyCode::Right => Some(KeySymbol::Right),
        KeyCode::Down => Some(KeySymbol::Down),
        KeyCode::Back => Some(KeySymbol::Backspace),
        KeyCode::Return => Some(KeySymbol::Return),
        KeyCode::Space => Some(KeySymbol::Space),
        KeyCode::Numpad0 => Some(KeySymbol::Char('0' as u8)),
        KeyCode::Numpad1 => Some(KeySymbol::Char('1' as u8)),
        KeyCode::Numpad2 => Some(KeySymbol::Char('2' as u8)),
        KeyCode::Numpad3 => Some(KeySymbol::Char('3' as u8)),
        KeyCode::Numpad4 => Some(KeySymbol::Char('4' as u8)),
        KeyCode::Numpad5 => Some(KeySymbol::Char('5' as u8)),
        KeyCode::Numpad6 => Some(KeySymbol::Char('6' as u8)),
        KeyCode::Numpad7 => Some(KeySymbol::Char('7' as u8)),
        KeyCode::Numpad8 => Some(KeySymbol::Char('8' as u8)),
        KeyCode::Numpad9 => Some(KeySymbol::Char('9' as u8)),
        KeyCode::NumpadAdd => Some(KeySymbol::Char('+' as u8)),
        KeyCode::NumpadDivide => Some(KeySymbol::Char('/' as u8)),
        KeyCode::NumpadDecimal => Some(KeySymbol::Char('.' as u8)),
        KeyCode::NumpadComma => Some(KeySymbol::Char(',' as u8)),
        KeyCode::NumpadEnter => Some(KeySymbol::Return),
        KeyCode::NumpadEquals => Some(KeySymbol::Char('=' as u8)),
        KeyCode::NumpadMultiply => Some(KeySymbol::Char('*' as u8)),
        KeyCode::NumpadSubtract => Some(KeySymbol::Char('-' as u8)),
        KeyCode::Apostrophe => Some(KeySymbol::Char('\'' as u8)),
        KeyCode::Asterisk => Some(KeySymbol::Char('*' as u8)),
        KeyCode::At => Some(KeySymbol::Char('@' as u8)),
        KeyCode::Backslash => Some(KeySymbol::Char('\\' as u8)),
        KeyCode::Capital => Some(KeySymbol::CapsLock),
        KeyCode::Colon => Some(KeySymbol::Char(':' as u8)),
        KeyCode::Comma => Some(KeySymbol::Char(',' as u8)),
        KeyCode::Equals => Some(KeySymbol::Char('=' as u8)),
        KeyCode::Grave => Some(KeySymbol::Char('`' as u8)),
        KeyCode::LAlt => Some(KeySymbol::Alt),
        KeyCode::LBracket => Some(KeySymbol::Char('[' as u8)),
        KeyCode::LControl => Some(KeySymbol::Ctrl),
        KeyCode::LShift => Some(KeySymbol::Shift),
        KeyCode::LWin => Some(KeySymbol::Meta),
        KeyCode::Minus => Some(KeySymbol::Char('-' as u8)),
        KeyCode::Period => Some(KeySymbol::Char('.' as u8)),
        KeyCode::Plus => Some(KeySymbol::Char('+' as u8)),
        KeyCode::RAlt => Some(KeySymbol::Alt),
        KeyCode::RBracket => Some(KeySymbol::Char(']' as u8)),
        KeyCode::RControl => Some(KeySymbol::Ctrl),
        KeyCode::RShift => Some(KeySymbol::Shift),
        KeyCode::RWin => Some(KeySymbol::Meta),
        KeyCode::Semicolon => Some(KeySymbol::Char(';' as u8)),
        KeyCode::Slash => Some(KeySymbol::Char('/' as u8)),
        KeyCode::Tab => Some(KeySymbol::Tab),
        _ => None,
    }
}

/// Applies the pass-filter table to one captured key code.
pub fn key_symbol_of_code(code: &KeyCode) -> (r: Option<KeySymbol>)
    ensures
        r == symbol_for(*code),
{
    match code {
        KeyCode::Key1 => Some(KeySymbol::Char('1' as u8)),
        KeyCode::Key2 => Some(KeySymbol::Char('2' as u8)),
        KeyCode::Key3 => Some(KeySymbol::Char('3' as u8)),
        KeyCode::Key4 => Some(KeySymbol::Char('4' as u8)),
        KeyCode::Key5 => Some(KeySymbol::Char('5' as u8)),
        KeyCode::Key6 => Some(KeySymbol::Char('6' as u8)),
        KeyCode::Key7 => Some(KeySymbol::Char('7' as u8)),
        KeyCode::Key8 => Some(KeySymbol::Char('8' as u8)),
        KeyCode::Key9 => Some(KeySymbol::Char('9' as u8)),
        KeyCode::Key0 => Some(KeySymbol::Char('0' as u8)),
        KeyCode::A => Some(KeySymbol::Char('A' as u8)),
        KeyCode::B => Some(KeySymbol::Char('B' as u8)),
        KeyCode::C => Some(KeySymbol::Char('C' as u8)),
        KeyCode::D => Some(KeySymbol::Char('D' as u8)),
        KeyCode::E => Some(KeySymbol::Char('E' as u8)),
        KeyCode::F => Some(KeySymbol::Char('F' as u8)),
        KeyCode::G => Some(KeySymbol::Char('G' as u8)),
        KeyCode::H => Some(KeySymbol::Char('H' as u8)),
        KeyCode::I => Some(KeySymbol::Char('I' as u8)),
        KeyCode::J => Some(KeySymbol::Char('J' as u8)),
        KeyCode::K => Some(KeySymbol::Char('K' as u8)),
        KeyCode::L => Some(KeySymbol::Char('L' as u8)),
        KeyCode::M => Some(KeySymbol::Char('M' as u8)),
        KeyCode::N => Some(KeySymbol::Char('N' as u8)),
        KeyCode::O => Some(KeySymbol::Char('O' as u8)),
        KeyCode::P => Some(KeySymbol::Char('P' as u8)),
        KeyCode::Q => Some(KeySymbol::Char('Q' as u8)),
        KeyCode::R => Some(KeySymbol::Char('R' as u8)),
        KeyCode::S => Some(KeySymbol::Char('S' as u8)),
        KeyCode::T => Some(KeySymbol::Char('T' as u8)),
        KeyCode::U => Some(KeySymbol::Char('U' as u8)),
        KeyCode::V => Some(KeySymbol::Char('V' as u8)),
        KeyCode::W => Some(KeySymbol::Char('W' as u8)),
        KeyCode::X => Some(KeySymbol::Char('X' as u8)),
        KeyCode::Y => Some(KeySymbol::Char('Y' as u8)),
        KeyCode::Z => Some(KeySymbol::Char('Z' as u8)),
        KeyCode::Escape => Some(KeySymbol::Escape),
        KeyCode::F1 => Some(KeySymbol::F1),
        KeyCode::F2 => Some(KeySymbol::F2),
        KeyCode::F3 => Some(KeySymbol::F3),
        KeyCode::F4 => Some(KeySymbol::F4),
        KeyCode::F5 => Some(KeySymbol::F5),
        KeyCode::F6 => Some(KeySymbol::F6),
        KeyCode::F7 => Some(KeySymbol::F7),
        KeyCode::F8 => Some(KeySymbol::F8),
        KeyCode::F9 => Some(KeySymbol::F9),
        KeyCode::F10 => Some(KeySymbol::F10),
        KeyCode::F11 => Some(KeySymbol::F11),
        KeyCode::F12 => Some(KeySymbol::F12),
        KeyCode::F13 => Some(KeySymbol::F13),
        KeyCode::F14 => Some(KeySymbol::F14),
        KeyCode::F15 => Some(KeySymbol::F15),
        KeyCode::F16 => Some(KeySymbol::F16),
        KeyCode::F17 => Some(KeySymbol::F17),
        KeyCode::F18 => Some(KeySymbol::F18),
        KeyCode::F19 => Some(KeySymbol::F19),
        KeyCode::F20 => Some(KeySymbol::F20),
        KeyCode::Home => Some(KeySymbol::Home),
        KeyCode::Delete => Some(KeySymbol::Delete),
        KeyCode::End => Some(KeySymbol::End),
        KeyCode::PageDown => Some(KeySymbol::PageDown),
        KeyCode::PageUp => Some(KeySymbol::PageUp),
        KeyCode::Left => Some(KeySymbol::Left),
        KeyCode::Up => Some(KeySymbol::Up),
        KeyCode::Right => Some(KeySymbol::Right),
        KeyCode::Down => Some(KeySymbol::Down),
        KeyCode::Back => Some(KeySymbol::Backspace),
        KeyCode::Return => Some(KeySymbol::Return),
        KeyCode::Space => Some(KeySymbol::Space),
        KeyCode::Numpad0 => Some(KeySymbol::Char('0' as u8)),
        KeyCode::Numpad1 => Some(KeySymbol::Char('1' as u8)),
        KeyCode::Numpad2 => Some(KeySymbol::Char('2' as u8)),
        KeyCode::Numpad3 => Some(KeySymbol::Char('3' as u8)),
        KeyCode::Numpad4 => Some(KeySymbol::Char('4' as u8)),
        KeyCode::Numpad5 => Some(KeySymbol::Char('5' as u8)),
        KeyCode::Numpad6 => Some(KeySymbol::Char('6' as u8)),
        KeyCode::Numpad7 => Some(KeySymbol::Char('7' as u8)),
        KeyCode::Numpad8 => Some(KeySymbol::Char('8' as u8)),
        KeyCode::Numpad9 => Some(KeySymbol::Char('9' as u8)),
        KeyCode::NumpadAdd => Some(KeySymbol::Char('+' as u8)),
        KeyCode::NumpadDivide => Some(KeySymbol::Char('/' as u8)),
        KeyCode::NumpadDecimal => Some(KeySymbol::Char('.' as u8)),
        KeyCode::NumpadComma => Some(KeySymbol::Char(',' as u8)),
        KeyCode::NumpadEnter => Some(KeySymbol::Return),
        KeyCode::NumpadEquals => Some(KeySymbol::Char('=' as u8)),
        KeyCode::NumpadMultiply => Some(KeySymbol::Char('*' as u8)),
        KeyCode::NumpadSubtract => Some(KeySymbol::Char('-' as u8)),
        KeyCode::Apostrophe => Some(KeySymbol::Char('\'' as u8)),
        KeyCode::Asterisk => Some(KeySymbol::Char('*' as u8)),
        KeyCode::At => Some(KeySymbol::Char('@' as u8)),
        KeyCode::Backslash => Some(KeySymbol::Char('\\' as u8)),
        KeyCode::Capital => Some(KeySymbol::CapsLock),
        KeyCode::Colon => Some(KeySymbol::Char(':' as u8)),
        KeyCode::Comma => Some(KeySymbol::Char(',' as u8)),
        KeyCode::Equals => Some(KeySymbol::Char('=' as u8)),
        KeyCode::Grave => Some(KeySymbol::Char('`' as u8)),
        KeyCode::LAlt => Some(KeySymbol::Alt),
        KeyCode::LBracket => Some(KeySymbol::Char('[' as u8)),
        KeyCode::LControl => Some(KeySymbol::Ctrl),
        KeyCode::LShift => Some(KeySymbol::Shift),
        KeyCode::LWin => Some(KeySymbol::Meta),
        KeyCode::Minus => Some(KeySymbol::Char('-' as u8)),
        KeyCode::Period => Some(KeySymbol::Char('.' as u8)),
        KeyCode::Plus => Some(KeySymbol::Char('+' as u8)),
        KeyCode::RAlt => Some(KeySymbol::Alt),
        KeyCode::RBracket => Some(KeySymbol::Char(']' as u8)),
        KeyCode::RControl => Some(KeySymbol::Ctrl),
        KeyCode::RShift => Some(KeySymbol::Shift),
        KeyCode::RWin => Some(KeySymbol::Meta),
        KeyCode::Semicolon => Some(KeySymbol::Char(';' as u8)),
        KeyCode::Slash => Some(KeySymbol::Char('/' as u8)),
        KeyCode::Tab => Some(KeySymbol::Tab),
        _ => None,
    }
}

/// The bytes one captured transition puts on the wire: a whole frame for a
/// mapped code, nothing at all for an unmapped one.
pub open spec fn spec_client_frame(code: KeyCode, pressed: bool) -> Seq<u8> {
    match symbol_for(code) {
        Some(s) => spec_encode(KeyEvent { action: action_of_flag(pressed), symbol: s }),
        None => Seq::empty(),
    }
}

/// Handles one captured key transition on the client: appends the event's
/// frame to the outgoing buffer when the code is mapped, and appends nothing
/// when it is not. Returns whether a frame was produced, so the caller knows
/// whether there is anything to transmit.
pub fn write_event(out: &mut Vec<u8>, code: &KeyCode, pressed: bool) -> (wrote: bool)
    ensures
        final(out)@ == old(out)@ + spec_client_frame(*code, pressed),
        wrote <==> symbol_for(*code) is Some,
{
    match key_symbol_of_code(code) {
        None => {
            proof {
                assert(old(out)@ + spec_client_frame(*code, pressed) =~= old(out)@);
            }
            false
        },
        Some(symbol) => {
            let state: u8 = if pressed {
                STATE_PRESSED
            } else {
                STATE_RELEASED
            };
            let mode = mode_of_symbol(&symbol);
            out.push(state);
            out.push(mode);
            if let KeySymbol::Char(c) = symbol {
                out.push(c);
            }
            proof {
                assert(out@ =~= old(out)@ + spec_client_frame(*code, pressed));
            }
            true
        },
    }
}

/// Every symbol the pass-filter lets through is well formed: the table maps
/// codes only to named keys and to ASCII literals.
pub proof fn lemma_mapped_symbol_wf(code: KeyCode)
    ensures
        symbol_for(code) matches Some(s) ==> s.wf(),
{
}

/// Pass-filter symmetry between the two roles: an unmapped code puts zero
/// bytes on the wire, and a mapped code puts exactly one frame there which
/// the host decodes back to the very event the client observed. The client's
/// filter and the host's mode table cannot desynchronize.
pub proof fn lemma_client_host_lockstep(code: KeyCode, pressed: bool)
    ensures
        symbol_for(code) is None ==> spec_client_frame(code, pressed) == Seq::<u8>::empty(),
        symbol_for(code) matches Some(s) ==> {
            let event = KeyEvent { action: action_of_flag(pressed), symbol: s };
            &&& event.wf()
            &&& spec_decode(spec_client_frame(code, pressed), 0) == Ok::<
                (KeyEvent, int),
                DecodeError,
            >((event, spec_client_frame(code, pressed).len() as int))
        },
{
    lemma_mapped_symbol_wf(code);
    if let Some(s) = symbol_for(code) {
        let event = KeyEvent { action: action_of_flag(pressed), symbol: s };
        lemma_round_trip(event);
    }
}

} // verus!
