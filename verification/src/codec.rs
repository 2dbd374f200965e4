//! The wire codec: a deterministic bidirectional mapping between a
//! [`KeyEvent`] and its 2- or 3-byte frame.
//!
//! A frame is `[state, mode]`, followed by one ASCII character byte exactly
//! when `mode` is [`MODE_CHAR`]. There is no length prefix and no delimiter:
//! every mode maps to a statically known byte count, so frame boundaries are
//! implicit and decoding never buffers across frames. [`spec_encode`] and
//! [`spec_decode`] are the protocol's definition; the executable functions are
//! proved against them.

use vstd::prelude::*;

use crate::keys::KeyAction;
use crate::keys::KeyEvent;
use crate::keys::KeySymbol;
use crate::keys::MODE_CHAR;
use crate::keys::MODE_TAB;
use crate::keys::STATE_PRESSED;
use crate::keys::STATE_RELEASED;
use crate::keys::action_of_state;
use crate::keys::lemma_mode_of_in_table;
use crate::keys::lemma_mode_table_inverse;
use crate::keys::mode_of;
use crate::keys::mode_of_symbol;
use crate::keys::named_symbol_of_mode;
use crate::keys::state_of_action;
use crate::keys::symbol_of_mode;

verus! {

/// Why an event could not be encoded: its literal character lies outside
/// 7-bit ASCII. The payload is the offending code point.
#[derive(Clone, Copy, Debug, PartialEq, Eq, Structural)]
pub enum EncodeError {
    NonAsciiChar(u32),
}

/// Why a frame could not be decoded.
///
/// `EndOfStream` is the one clean outcome: the source closed before a frame
/// began (fewer than two bytes remained). The three malformed-frame variants
/// are protocol errors and fatal to a session, since the protocol has no
/// resynchronization marker. `TruncatedFrame` is a hard I/O error, not a clean
/// end: the two header bytes had already committed the frame to a third byte
/// that never arrived.
#[derive(Clone, Copy, Debug, PartialEq, Eq, Structural)]
pub enum DecodeError {
    /// The source closed before two header bytes were available.
    EndOfStream,
    /// The state byte was neither pressed nor released.
    InvalidState(u8),
    /// The mode byte lies outside the closed mode table.
    InvalidMode(u8),
    /// The character byte of a character frame was not 7-bit ASCII.
    InvalidChar(u8),
    /// The source closed after the header of a character frame, before its
    /// character byte.
    TruncatedFrame,
}

impl DecodeError {
    /// A malformed frame: fatal to the session, never retried.
    pub open spec fn is_protocol_error(self) -> bool {
        self is InvalidState || self is InvalidMode || self is InvalidChar
    }

    /// A hard transport failure, as opposed to a clean close.
    pub open spec fn is_io_error(self) -> bool {
        self is TruncatedFrame
    }
}

/// The frame that carries an event: `[state, mode]`, plus the character byte
/// for a literal character.
pub open spec fn spec_encode(e: KeyEvent) -> Seq<u8> {
    match e.symbol {
        KeySymbol::Char(c) => seq![state_of_action(e.action), MODE_CHAR, c],
        _ => seq![state_of_action(e.action), mode_of(e.symbol)],
    }
}

/// The decoder's verdict on the bytes of `s` from position `pos` on, where the
/// source is closed after the last byte of `s`: either one complete event and
/// the position just past its frame, or the first error the frame shows.
pub open spec fn spec_decode(s: Seq<u8>, pos: int) -> Result<(KeyEvent, int), DecodeError>
    recommends
        0 <= pos <= s.len(),
{
    if s.len() - pos < 2 {
        Err(DecodeError::EndOfStream)
    } else {
        let state = s[pos];
        let mode = s[pos + 1];
        if state != STATE_PRESSED && state != STATE_RELEASED {
            Err(DecodeError::InvalidState(state))
        } else if mode == MODE_CHAR {
            if s.len() - pos < 3 {
                Err(DecodeError::TruncatedFrame)
            } else if s[pos + 2] > 127 {
                Err(DecodeError::InvalidChar(s[pos + 2]))
            } else {
                Ok(
                    (
                        KeyEvent {
                            action: action_of_state(state),
                            symbol: KeySymbol::Char(s[pos + 2]),
                        },
                        pos + 3,
                    ),
                )
            }
        } else if mode <= MODE_TAB {
            Ok(
                (
                    KeyEvent { action: action_of_state(state), symbol: named_symbol_of_mode(mode) },
                    pos + 2,
                ),
            )
        } else {
            Err(DecodeError::InvalidMode(mode))
        }
    }
}

/// Encodes one event as its frame.
///
/// Succeeds exactly on well-formed events; the one rejected input is a literal
/// character beyond 7-bit ASCII. Symbols with no mapping do not exist here:
/// the symbol set is closed, and unsupported keys are filtered out before an
/// event is ever built (see [`crate::keymap`]).
pub fn encode(event: &KeyEvent) -> (r: Result<Vec<u8>, EncodeError>)
    ensures
        r is Ok <==> event.wf(),
        r matches Ok(bytes) ==> bytes@ == spec_encode(*event),
        r matches Err(e) ==> (event.symbol matches KeySymbol::Char(c) && c > 127 && e
            == EncodeError::NonAsciiChar(c as u32)),
{
    let state: u8 = match event.action {
        KeyAction::Pressed => STATE_PRESSED,
        KeyAction::Released => STATE_RELEASED,
    };
    let mode = mode_of_symbol(&event.symbol);
    let mut bytes: Vec<u8> = Vec::new();
    bytes.push(state);
    bytes.push(mode);
    if let KeySymbol::Char(c) = event.symbol {
        if c > 127 {
            return Err(EncodeError::NonAsciiChar(c as u32));
        }
        bytes.push(c);
    }
    proof {
        assert(bytes@ =~= spec_encode(*event));
    }
    Ok(bytes)
}

/// Appends one literal character to an outgoing frame, rejecting anything
/// beyond 7-bit ASCII and leaving the frame untouched in that case.
pub fn write_char(out: &mut Vec<u8>, value: char) -> (r: Result<(), EncodeError>)
    ensures
        value as u32 <= 127 ==> r is Ok && final(out)@ == old(out)@.push(value as u8),
        value as u32 > 127 ==> r == Err::<(), EncodeError>(
            EncodeError::NonAsciiChar(value as u32),
        ) && final(out)@ == old(out)@,
{
    let code = value as u32;
    if code > 127 {
        return Err(EncodeError::NonAsciiChar(code));
    }
    out.push(code as u8);
    Ok(())
}

/// Reads the character byte of a character frame from position `pos` of a
/// source whose available bytes are `input`: the source closing here is a hard
/// error, since the frame's header had already claimed this byte.
pub fn read_char(input: &[u8], pos: usize) -> (r: Result<char, DecodeError>)
    requires
        pos <= input@.len(),
    ensures
        pos == input@.len() ==> r == Err::<char, DecodeError>(DecodeError::TruncatedFrame),
        pos < input@.len() && input@[pos as int] > 127 ==> r == Err::<char, DecodeError>(
            DecodeError::InvalidChar(input@[pos as int]),
        ),
        pos < input@.len() && input@[pos as int] <= 127 ==> r == Ok::<char, DecodeError>(
            input@[pos as int] as char,
        ),
{
    if pos == input.len() {
        return Err(DecodeError::TruncatedFrame);
    }
    let b = input[pos];
    if b > 127 {
        Err(DecodeError::InvalidChar(b))
    } else {
        Ok(b as char)
    }
}

/// Decodes exactly one frame from position `pos` of a source whose available
/// bytes are `input` and which closes after them.
///
/// The verdict is exactly [`spec_decode`]'s: one well-formed event and the
/// position just past its frame, or the first error of the frame. On success
/// the consumed bytes are precisely the event's own encoding, so decoding
/// inverts encoding frame by frame.
pub fn decode_event(input: &[u8], pos: usize) -> (r: Result<(KeyEvent, usize), DecodeError>)
    requires
        pos <= input@.len(),
    ensures
        (match r {
            Ok((event, next)) => spec_decode(input@, pos as int) == Ok::<
                (KeyEvent, int),
                DecodeError,
            >((event, next as int)),
            Err(e) => spec_decode(input@, pos as int) == Err::<(KeyEvent, int), DecodeError>(e),
        }),
        r matches Ok((event, next)) ==> event.wf() && pos < next <= input@.len() && input@.subrange(
            pos as int,
            next as int,
        ) == spec_encode(event),
{
    if input.len() - pos < 2 {
        return Err(DecodeError::EndOfStream);
    }
    let state = input[pos];
    let mode = input[pos + 1];
    if state != STATE_PRESSED && state != STATE_RELEASED {
        return Err(DecodeError::InvalidState(state));
    }
    let action = if state == STATE_PRESSED {
        KeyAction::Pressed
    } else {
        KeyAction::Released
    };
    if mode == MODE_CHAR {
        let c = match read_char(input, pos + 2) {
            Ok(c) => c,
            Err(e) => {
                return Err(e);
            },
        };
        let event = KeyEvent { action, symbol: KeySymbol::Char(c as u8) };
        proof {
            assert(input@.subrange(pos as int, pos + 3) =~= spec_encode(event));
        }
        Ok((event, pos + 3))
    } else if mode <= MODE_TAB {
        let symbol = symbol_of_mode(mode);
        let event = KeyEvent { action, symbol };
        proof {
            lemma_mode_table_inverse(symbol, mode);
            assert(input@.subrange(pos as int, pos + 2) =~= spec_encode(event));
        }
        Ok((event, pos + 2))
    } else {
        Err(DecodeError::InvalidMode(mode))
    }
}

/// Round-trip law: every well-formed event, encoded and then decoded from a
/// source that carries exactly its frame, comes back identical, consuming the
/// whole frame.
pub proof fn lemma_round_trip(e: KeyEvent)
    requires
        e.wf(),
    ensures
        spec_decode(spec_encode(e), 0) == Ok::<(KeyEvent, int), DecodeError>(
            (e, spec_encode(e).len() as int),
        ),
{
    lemma_mode_of_in_table(e.symbol);
    if !(e.symbol is Char) {
        lemma_mode_table_inverse(e.symbol, mode_of(e.symbol));
    }
}

/// A frame whose mode byte lies outside the closed table is rejected as a
/// protocol error from its header alone: the bytes after the header, whatever
/// they are and however many, play no part in the verdict.
pub proof fn lemma_unknown_mode_rejected(s: Seq<u8>, pos: int)
    requires
        0 <= pos,
        pos + 2 <= s.len(),
        s[pos] == STATE_PRESSED || s[pos] == STATE_RELEASED,
        s[pos + 1] > MODE_TAB,
    ensures
        spec_decode(s, pos) == Err::<(KeyEvent, int), DecodeError>(
            DecodeError::InvalidMode(s[pos + 1]),
        ),
        spec_decode(s, pos)->Err_0.is_protocol_error(),
{
}

/// Clean shutdown: a source that closes before a frame begins — fewer than
/// two bytes available — yields the distinguished end-of-stream verdict,
/// which is neither a protocol error nor a hard I/O error, so a session loop
/// can terminate silently on it.
pub proof fn lemma_clean_shutdown(s: Seq<u8>, pos: int)
    requires
        0 <= pos <= s.len(),
        s.len() - pos < 2,
    ensures
        spec_decode(s, pos) == Err::<(KeyEvent, int), DecodeError>(DecodeError::EndOfStream),
        !spec_decode(s, pos)->Err_0.is_protocol_error(),
        !spec_decode(s, pos)->Err_0.is_io_error(),
{
}

/// A character frame whose source closes right after the two header bytes
/// fails as a hard I/O error, never as the clean end of stream: those two
/// bytes promised a third, and it never arrived.
pub proof fn lemma_truncated_frame_is_hard_error(s: Seq<u8>, pos: int)
    requires
        0 <= pos,
        pos + 2 == s.len(),
        s[pos] == STATE_PRESSED || s[pos] == STATE_RELEASED,
        s[pos + 1] == MODE_CHAR,
    ensures
        spec_decode(s, pos) == Err::<(KeyEvent, int), DecodeError>(DecodeError::TruncatedFrame),
        spec_decode(s, pos)->Err_0.is_io_error(),
        !(spec_decode(s, pos)->Err_0 is EndOfStream),
{
}

} // verus!
