//! The decisions of a full-screen terminal program that can hand the terminal
//! to an external editor and take it back.
//!
//! The library holds the logic as a state machine: the host performs the
//! terminal operations it is asked for and reports back how each went.
use vstd::prelude::*;

pub mod action;
pub mod event_loop;
pub mod input;
pub mod laws;

verus! {

/// The longest wait, in milliseconds, for an input event before the loop
/// draws again.
pub const POLL_TIMEOUT_MS: u64 = 16;

/// The external editor that the loop hands the terminal to.
pub const EDITOR: &'static str = "vim";

/// The file that the editor is opened on.
pub const EDIT_PATH: &'static str = "/tmp/a.txt";

/// The single line of text that each frame shows.
pub const USAGE: &'static str = "Hello ratatui! (press 'q' to quit, 'e' to edit a file)";

} // verus!
