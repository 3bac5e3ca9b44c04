//! Input events, holding what the event loop reads of them.
use vstd::prelude::*;

verus! {

/// The key of a key event: a character key, or any other key.
#[derive(Clone, Copy, Debug, PartialEq, Eq, Structural)]
pub enum KeyCode {
    Char(char),
    Other,
}

/// Whether a key event is a press, a repeat or a release.
#[derive(Clone, Copy, Debug, PartialEq, Eq, Structural)]
pub enum KeyEventKind {
    Press,
    Repeat,
    Release,
}

#[derive(Clone, Copy, Debug, PartialEq, Eq, Structural)]
pub struct KeyEvent {
    pub code: KeyCode,
    pub kind: KeyEventKind,
}

/// An input event: a key event, or anything else (mouse, resize, focus, paste).
#[derive(Clone, Copy, Debug, PartialEq, Eq, Structural)]
pub enum Event {
    Key(KeyEvent),
    Other,
}

impl KeyEvent {
    /// Whether this event is a press of the character key `c`.
    pub open spec fn is_press_of(self, c: char) -> bool {
        self.kind == KeyEventKind::Press && self.code == KeyCode::Char(c)
    }
}

impl Event {
    /// Whether this event is a press of the character key `c`.
    pub open spec fn is_press_of(self, c: char) -> bool {
        self matches Event::Key(k) && k.is_press_of(c)
    }
}

} // verus!
