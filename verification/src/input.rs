//! Decoded key events, as the keyboard layer of the host hands them over.

use vstd::prelude::*;

verus! {

/// The keys that reach the engine by their code.
#[derive(Clone, Copy, Debug, PartialEq, Eq, Structural)]
pub enum KeyCode {
    ArrowUp,
    ArrowDown,
    ArrowLeft,
    ArrowRight,
    R,
    S,
    /// Any other key.
    Other,
}

/// A decoded key event: a key by its code, or the character that a key stands for.
#[derive(Clone, Copy, Debug, PartialEq, Eq, Structural)]
pub enum DecodedKey {
    RawKey(KeyCode),
    Unicode(char),
}

/// What drives the engine: a key event, or a tick of the clock.
#[derive(Clone, Copy, Debug, PartialEq, Eq, Structural)]
pub enum Event {
    Key(DecodedKey),
    Tick,
}

} // verus!
