//! Core of a remote-keyboard tool: a verified wire codec for keyboard
//! events together with the client-side key-mapping table.
//!
//! A client captures local key transitions, maps each to a [`keys::KeySymbol`]
//! (dropping codes that have no mapping), encodes the resulting
//! [`keys::KeyEvent`] as a 2- or 3-byte frame, and sends it over a reliable
//! ordered byte stream. The host decodes each frame in order and forwards the
//! event to an OS key-injection collaborator. The I/O itself (sockets, window
//! events, injection) lives outside this crate; everything here works on plain
//! values and is specified and verified.

pub mod codec;
pub mod keymap;
pub mod keys;
