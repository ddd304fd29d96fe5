//! What the terminal delivered, and which key of it counts as pressed.

use vstd::prelude::*;

verus! {

/// A key, as far as the commands tell keys apart.
#[derive(Clone, Copy, Debug, PartialEq, Eq, Structural)]
pub enum Key {
    /// A key that types a character.
    Char(char),
    /// Every other key.
    Other,
}

/// Whether a key went down, is held, or came up.
#[derive(Clone, Copy, Debug, PartialEq, Eq, Structural)]
pub enum KeyKind {
    Press,
    Repeat,
    Release,
}

/// One event read from the terminal.
#[derive(Clone, Copy, Debug, PartialEq, Eq, Structural)]
pub enum TerminalEvent {
    /// A key event.
    Key { code: Key, kind: KeyKind },
    /// Anything else: focus, mouse, paste, resize.
    Other,
}

/// The key that `polled` reports as pressed, if it reports one.
///
/// `polled` is `None` where the wait for an event ran out.
pub open spec fn pressed_key(polled: Option<TerminalEvent>) -> Option<Key> {
    match polled {
        Some(TerminalEvent::Key { code, kind: KeyKind::Press }) => Some(code),
        _ => None,
    }
}

/// Picks the pressed key out of what one bounded wait on the terminal gave:
/// the key's code for a key press, and `None` for a timeout, a repeat, a
/// release or any other event.
pub fn poll_key_event(polled: Option<TerminalEvent>) -> (key: Option<Key>)
    ensures
        key == pressed_key(polled),
{
    match polled {
        Some(TerminalEvent::Key { code, kind: KeyKind::Press }) => Some(code),
        _ => None,
    }
}

} // verus!
