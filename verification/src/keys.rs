//! The semantic model of a keyboard event and the closed mode table that
//! serializes it.
//!
//! A [`KeySymbol`] is either one of a fixed set of named keys or a literal
//! ASCII character. Each symbol has a fixed 1-byte `mode` on the wire; mode
//! [`MODE_CHAR`] (zero) is reserved for literal characters, which carry one
//! extra byte. The tag-to-integer mapping lives only here, shared by encode
//! and decode, so the two directions cannot drift apart.

use vstd::prelude::*;

verus! {

/// Wire byte for a key being pressed down.
pub const STATE_PRESSED: u8 = 0;

/// Wire byte for a key being released.
pub const STATE_RELEASED: u8 = 1;

/// Mode byte of a literal-character frame; the only mode followed by a third byte.
pub const MODE_CHAR: u8 = 0;

pub const MODE_CTRL: u8 = 1;

pub const MODE_SHIFT: u8 = 2;

pub const MODE_ALT: u8 = 3;

pub const MODE_BACKSPACE: u8 = 4;

pub const MODE_CAPS_LOCK: u8 = 5;

pub const MODE_DELETE: u8 = 6;

pub const MODE_DOWN: u8 = 7;

pub const MODE_UP: u8 = 8;

pub const MODE_LEFT: u8 = 9;

pub const MODE_RIGHT: u8 = 10;

pub const MODE_END: u8 = 11;

pub const MODE_ESCAPE: u8 = 12;

pub const MODE_F1: u8 = 13;

pub const MODE_F2: u8 = 14;

pub const MODE_F3: u8 = 15;

pub const MODE_F4: u8 = 16;

pub const MODE_F5: u8 = 17;

pub const MODE_F6: u8 = 18;

pub const MODE_F7: u8 = 19;

pub const MODE_F8: u8 = 20;

pub const MODE_F9: u8 = 21;

pub const MODE_F10: u8 = 22;

pub const MODE_F11: u8 = 23;

pub const MODE_F12: u8 = 24;

pub const MODE_F13: u8 = 25;

pub const MODE_F14: u8 = 26;

pub const MODE_F15: u8 = 27;

pub const MODE_F16: u8 = 28;

pub const MODE_F17: u8 = 29;

pub const MODE_F18: u8 = 30;

pub const MODE_F19: u8 = 31;

pub const MODE_F20: u8 = 32;

pub const MODE_HELP: u8 = 33;

pub const MODE_HOME: u8 = 34;

pub const MODE_META: u8 = 35;

pub const MODE_OPTION: u8 = 36;

pub const MODE_PAGE_DOWN: u8 = 37;

pub const MODE_PAGE_UP: u8 = 38;

pub const MODE_RETURN: u8 = 39;

pub const MODE_SPACE: u8 = 40;

/// Largest mode byte in the closed table; every valid mode is `<=` this one.
pub const MODE_TAB: u8 = 41;

/// Whether a key transition is a press or a release.
#[derive(Clone, Copy, Debug, PartialEq, Eq, Structural)]
pub enum KeyAction {
    Pressed,
    Released,
}

/// One key of the protocol's closed symbol set: a fixed enumeration of named
/// keys plus a literal character.
///
/// `Char` carries a single byte; a well-formed symbol keeps it in the 7-bit
/// ASCII range (see [`KeySymbol::wf`]). Nothing outside this set is
/// representable on the wire.
#[derive(Clone, Copy, Debug, PartialEq, Eq, Structural)]
pub enum KeySymbol {
    /// A literal ASCII character.
    Char(u8),
    Ctrl,
    Shift,
    Alt,
    Backspace,
    CapsLock,
    Delete,
    Down,
    Up,
    Left,
    Right,
    End,
    Escape,
    F1,
    F2,
    F3,
    F4,
    F5,
    F6,
    F7,
    F8,
    F9,
    F10,
    F11,
    F12,
    F13,
    F14,
    F15,
    F16,
    F17,
    F18,
    F19,
    F20,
    Help,
    Home,
    Meta,
    /// The macOS option key (the one named key with no client-side mapping).
    OptionKey,
    PageDown,
    PageUp,
    Return,
    Space,
    Tab,
}

impl KeySymbol {
    /// A symbol is well formed when a literal character stays within 7-bit ASCII.
    pub open spec fn wf(self) -> bool {
        match self {
            KeySymbol::Char(c) => c <= 127,
            _ => true,
        }
    }
}

/// One observed key transition: which symbol, pressed or released.
#[derive(Clone, Copy, Debug, PartialEq, Eq, Structural)]
pub struct KeyEvent {
    pub action: KeyAction,
    pub symbol: KeySymbol,
}

impl KeyEvent {
    pub open spec fn wf(self) -> bool {
        self.symbol.wf()
    }
}

/// The state byte that encodes an action.
pub open spec fn state_of_action(a: KeyAction) -> u8 {
    match a {
        KeyAction::Pressed => STATE_PRESSED,
        KeyAction::Released => STATE_RELEASED,
    }
}

/// The action encoded by a valid state byte.
pub open spec fn action_of_state(state: u8) -> KeyAction
    recommends
        state == STATE_PRESSED || state == STATE_RELEASED,
{
    if state == STATE_PRESSED {
        KeyAction::Pressed
    } else {
        KeyAction::Released
    }
}

/// The action reported by an input capture flag: pressed or released.
pub open spec fn action_of_flag(pressed: bool) -> KeyAction {
    if pressed {
        KeyAction::Pressed
    } else {
        KeyAction::Released
    }
}

/// The mode byte assigned to each symbol by the closed table.
pub open spec fn mode_of(s: KeySymbol) -> u8 {
    match s {
        KeySymbol::Char(_) => MODE_CHAR,
        KeySymbol::Ctrl => MODE_CTRL,
        KeySymbol::Shift => MODE_SHIFT,
        KeySymbol::Alt => MODE_ALT,
        KeySymbol::Backspace => MODE_BACKSPACE,
        KeySymbol::CapsLock => MODE_CAPS_LOCK,
        KeySymbol::Delete => MODE_DELETE,
        KeySymbol::Down => MODE_DOWN,
        KeySymbol::Up => MODE_UP,
        KeySymbol::Left => MODE_LEFT,
        KeySymbol::Right => MODE_RIGHT,
        KeySymbol::End => MODE_END,
        KeySymbol::Escape => MODE_ESCAPE,
        KeySymbol::F1 => MODE_F1,
        KeySymbol::F2 => MODE_F2,
        KeySymbol::F3 => MODE_F3,
        KeySymbol::F4 => MODE_F4,
        KeySymbol::F5 => MODE_F5,
        KeySymbol::F6 => MODE_F6,
        KeySymbol::F7 => MODE_F7,
        KeySymbol::F8 => MODE_F8,
        KeySymbol::F9 => MODE_F9,
        KeySymbol::F10 => MODE_F10,
        KeySymbol::F11 => MODE_F11,
        KeySymbol::F12 => MODE_F12,
        KeySymbol::F13 => MODE_F13,
        KeySymbol::F14 => MODE_F14,
        KeySymbol::F15 => MODE_F15,
        KeySymbol::F16 => MODE_F16,
        KeySymbol::F17 => MODE_F17,
        KeySymbol::F18 => MODE_F18,
        KeySymbol::F19 => MODE_F19,
        KeySymbol::F20 => MODE_F20,
        KeySymbol::Help => MODE_HELP,
        KeySymbol::Home => MODE_HOME,
        KeySymbol::Meta => MODE_META,
        KeySymbol::OptionKey => MODE_OPTION,
        KeySymbol::PageDown => MODE_PAGE_DOWN,
        KeySymbol::PageUp => MODE_PAGE_UP,
        KeySymbol::Return => MODE_RETURN,
        KeySymbol::Space => MODE_SPACE,
        KeySymbol::Tab => MODE_TAB,
    }
}

/// The named symbol a non-character mode byte stands for.
pub open spec fn named_symbol_of_mode(mode: u8) -> KeySymbol
    recommends
        MODE_CHAR < mode <= MODE_TAB,
{
    if mode == MODE_CTRL {
        KeySymbol::Ctrl
    } else if mode == MODE_SHIFT {
        KeySymbol::Shift
    } else if mode == MODE_ALT {
        KeySymbol::Alt
    } else if mode == MODE_BACKSPACE {
        KeySymbol::Backspace
    } else if mode == MODE_CAPS_LOCK {
        KeySymbol::CapsLock
    } else if mode == MODE_DELETE {
        KeySymbol::Delete
    } else if mode == MODE_DOWN {
        KeySymbol::Down
    } else if mode == MODE_UP {
        KeySymbol::Up
    } else if mode == MODE_LEFT {
        KeySymbol::Left
    } else if mode == MODE_RIGHT {
        KeySymbol::Right
    } else if mode == MODE_END {
        KeySymbol::End
    } else if mode == MODE_ESCAPE {
        KeySymbol::Escape
    } else if mode == MODE_F1 {
        KeySymbol::F1
    } else if mode == MODE_F2 {
        KeySymbol::F2
    } else if mode == MODE_F3 {
        KeySymbol::F3
    } else if mode == MODE_F4 {
        KeySymbol::F4
    } else if mode == MODE_F5 {
        KeySymbol::F5
    } else if mode == MODE_F6 {
        KeySymbol::F6
    } else if mode == MODE_F7 {
        KeySymbol::F7
    } else if mode == MODE_F8 {
        KeySymbol::F8
    } else if mode == MODE_F9 {
        KeySymbol::F9
    } else if mode == MODE_F10 {
        KeySymbol::F10
    } else if mode == MODE_F11 {
        KeySymbol::F11
    } else if mode == MODE_F12 {
        KeySymbol::F12
    } else if mode == MODE_F13 {
        KeySymbol::F13
    } else if mode == MODE_F14 {
        KeySymbol::F14
    } else if mode == MODE_F15 {
        KeySymbol::F15
    } else if mode == MODE_F16 {
        KeySymbol::F16
    } else if mode == MODE_F17 {
        KeySymbol::F17
    } else if mode == MODE_F18 {
        KeySymbol::F18
    } else if mode == MODE_F19 {
        KeySymbol::F19
    } else if mode == MODE_F20 {
        KeySymbol::F20
    } else if mode == MODE_HELP {
        KeySymbol::Help
    } else if mode == MODE_HOME {
        KeySymbol::Home
    } else if mode == MODE_META {
        KeySymbol::Meta
    } else if mode == MODE_OPTION {
        KeySymbol::OptionKey
    } else if mode == MODE_PAGE_DOWN {
        KeySymbol::PageDown
    } else if mode == MODE_PAGE_UP {
        KeySymbol::PageUp
    } else if mode == MODE_RETURN {
        KeySymbol::Return
    } else if mode == MODE_SPACE {
        KeySymbol::Space
    } else {
        KeySymbol::Tab
    }
}

/// Looks a symbol's mode byte up in the closed table.
pub fn mode_of_symbol(s: &KeySymbol) -> (mode: u8)
    ensures
        mode == mode_of(*s),
{
    match s {
        KeySymbol::Char(_) => MODE_CHAR,
        KeySymbol::Ctrl => MODE_CTRL,
        KeySymbol::Shift => MODE_SHIFT,
        KeySymbol::Alt => MODE_ALT,
        KeySymbol::Backspace => MODE_BACKSPACE,
        KeySymbol::CapsLock => MODE_CAPS_LOCK,
        KeySymbol::Delete => MODE_DELETE,
        KeySymbol::Down => MODE_DOWN,
        KeySymbol::Up => MODE_UP,
        KeySymbol::Left => MODE_LEFT,
        KeySymbol::Right => MODE_RIGHT,
        KeySymbol::End => MODE_END,
        KeySymbol::Escape => MODE_ESCAPE,
        KeySymbol::F1 => MODE_F1,
        KeySymbol::F2 => MODE_F2,
        KeySymbol::F3 => MODE_F3,
        KeySymbol::F4 => MODE_F4,
        KeySymbol::F5 => MODE_F5,
        KeySymbol::F6 => MODE_F6,
        KeySymbol::F7 => MODE_F7,
        KeySymbol::F8 => MODE_F8,
        KeySymbol::F9 => MODE_F9,
        KeySymbol::F10 => MODE_F10,
        KeySymbol::F11 => MODE_F11,
        KeySymbol::F12 => MODE_F12,
        KeySymbol::F13 => MODE_F13,
        KeySymbol::F14 => MODE_F14,
        KeySymbol::F15 => MODE_F15,
        KeySymbol::F16 => MODE_F16,
        KeySymbol::F17 => MODE_F17,
        KeySymbol::F18 => MODE_F18,
        KeySymbol::F19 => MODE_F19,
        KeySymbol::F20 => MODE_F20,
        KeySymbol::Help => MODE_HELP,
        KeySymbol::Home => MODE_HOME,
        KeySymbol::Meta => MODE_META,
        KeySymbol::OptionKey => MODE_OPTION,
        KeySymbol::PageDown => MODE_PAGE_DOWN,
        KeySymbol::PageUp => MODE_PAGE_UP,
        KeySymbol::Return => MODE_RETURN,
        KeySymbol::Space => MODE_SPACE,
        KeySymbol::Tab => MODE_TAB,
    }
}

/// Looks the named symbol of a non-character mode byte up in the closed table.
pub fn symbol_of_mode(mode: u8) -> (s: KeySymbol)
    requires
        MODE_CHAR < mode <= MODE_TAB,
    ensures
        s == named_symbol_of_mode(mode),
{
    if mode == MODE_CTRL {
        KeySymbol::Ctrl
    } else if mode == MODE_SHIFT {
        KeySymbol::Shift
    } else if mode == MODE_ALT {
        KeySymbol::Alt
    } else if mode == MODE_BACKSPACE {
        KeySymbol::Backspace
    } else if mode == MODE_CAPS_LOCK {
        KeySymbol::CapsLock
    } else if mode == MODE_DELETE {
        KeySymbol::Delete
    } else if mode == MODE_DOWN {
        KeySymbol::Down
    } else if mode == MODE_UP {
        KeySymbol::Up
    } else if mode == MODE_LEFT {
        KeySymbol::Left
    } else if mode == MODE_RIGHT {
        KeySymbol::Right
    } else if mode == MODE_END {
        KeySymbol::End
    } else if mode == MODE_ESCAPE {
        KeySymbol::Escape
    } else if mode == MODE_F1 {
        KeySymbol::F1
    } else if mode == MODE_F2 {
        KeySymbol::F2
    } else if mode == MODE_F3 {
        KeySymbol::F3
    } else if mode == MODE_F4 {
        KeySymbol::F4
    } else if mode == MODE_F5 {
        KeySymbol::F5
    } else if mode == MODE_F6 {
        KeySymbol::F6
    } else if mode == MODE_F7 {
        KeySymbol::F7
    } else if mode == MODE_F8 {
        KeySymbol::F8
    } else if mode == MODE_F9 {
        KeySymbol::F9
    } else if mode == MODE_F10 {
        KeySymbol::F10
    } else if mode == MODE_F11 {
        KeySymbol::F11
    } else if mode == MODE_F12 {
        KeySymbol::F12
    } else if mode == MODE_F13 {
        KeySymbol::F13
    } else if mode == MODE_F14 {
        KeySymbol::F14
    } else if mode == MODE_F15 {
        KeySymbol::F15
    } else if mode == MODE_F16 {
        KeySymbol::F16
    } else if mode == MODE_F17 {
        KeySymbol::F17
    } else if mode == MODE_F18 {
        KeySymbol::F18
    } else if mode == MODE_F19 {
        KeySymbol::F19
    } else if mode == MODE_F20 {
        KeySymbol::F20
    } else if mode == MODE_HELP {
        KeySymbol::Help
    } else if mode == MODE_HOME {
        KeySymbol::Home
    } else if mode == MODE_META {
        KeySymbol::Meta
    } else if mode == MODE_OPTION {
        KeySymbol::OptionKey
    } else if mode == MODE_PAGE_DOWN {
        KeySymbol::PageDown
    } else if mode == MODE_PAGE_UP {
        KeySymbol::PageUp
    } else if mode == MODE_RETURN {
        KeySymbol::Return
    } else if mode == MODE_SPACE {
        KeySymbol::Space
    } else {
        KeySymbol::Tab
    }
}

/// Every mode byte the table assigns falls inside the closed table, and only
/// literal characters get the character mode.
pub proof fn lemma_mode_of_in_table(s: KeySymbol)
    ensures
        mode_of(s) <= MODE_TAB,
        mode_of(s) == MODE_CHAR <==> s is Char,
{
}

/// The two table directions invert each other: decoding a named symbol's mode
/// byte gives the symbol back, and encoding a valid named mode's symbol gives
/// the mode byte back.
pub proof fn lemma_mode_table_inverse(s: KeySymbol, mode: u8)
    requires
        MODE_CHAR < mode <= MODE_TAB,
        !(s is Char),
    ensures
        named_symbol_of_mode(mode_of(s)) == s,
        mode_of(named_symbol_of_mode(mode)) == mode,
{
}

} // verus!
