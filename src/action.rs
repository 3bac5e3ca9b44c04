//! What the loop does in answer to a poll for input.
use vstd::prelude::*;
use crate::input::{Event, KeyCode, KeyEvent, KeyEventKind};

verus! {

/// The key that ends the loop.
pub const QUIT_KEY: char = 'q';

/// The key that hands the terminal to the editor.
pub const EDIT_KEY: char = 'e';

/// What one poll for input asks of the loop.
#[derive(Clone, Copy, Debug, PartialEq, Eq, Structural)]
pub enum Action {
    EditFile,
    Quit,
    Nothing,
}

/// The action for the result of a poll: `Option::None` where no event came within the
/// timeout, else the event; `Nothing` asks for no change.
pub open spec fn action_of(polled: Option<Event>) -> Action {
    match polled {
        Option::Some(ev) => if ev.is_press_of(QUIT_KEY) {
            Action::Quit
        } else if ev.is_press_of(EDIT_KEY) {
            Action::EditFile
        } else {
            Action::Nothing
        },
        Option::None => Action::Nothing,
    }
}

/// Classifies the result of a poll: a press of the quit key quits, a press of
/// the edit key edits, and any other event, or none, gives `Nothing`.
pub fn handle_events(polled: Option<Event>) -> (a: Action)
    ensures
        a == action_of(polled),
{
    match polled {
        Option::Some(Event::Key(KeyEvent { code: KeyCode::Char(c), kind: KeyEventKind::Press })) => {
            if c == QUIT_KEY {
                Action::Quit
            } else if c == EDIT_KEY {
                Action::EditFile
            } else {
                Action::Nothing
            }
        },
        _ => Action::Nothing,
    }
}

} // verus!
