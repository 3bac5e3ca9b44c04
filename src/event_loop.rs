//! The event loop as a state machine.
//!
//! The loop asks its host for one terminal operation at a time. The host
//! performs it and reports how it went; from that report the loop decides the
//! next operation, or that it is over. Each round draws a frame and then polls
//! for input. A press of the edit key runs the editor bridge: leave the
//! alternate screen, leave raw mode, run the editor until it exits, enter raw
//! mode, enter the alternate screen, and clear the screen so that the next
//! frame is drawn whole.
use vstd::prelude::*;
use crate::action::{action_of, handle_events, Action};
use crate::input::Event;

verus! {

/// The phase of the loop.
#[derive(Clone, Copy, Debug, PartialEq, Eq, Structural)]
pub enum LoopState {
    Running,
    Editing,
    Terminated,
}

/// A terminal operation that the loop asks its host to perform.
#[derive(Clone, Copy, Debug, PartialEq, Eq, Structural)]
pub enum Op {
    /// Draw one frame.
    Draw,
    /// Wait for an input event, at most for the poll timeout.
    Poll,
    LeaveAlternateScreen,
    DisableRawMode,
    /// Run the editor on the file and wait until it exits; its exit status
    /// does not matter.
    SpawnEditor,
    EnableRawMode,
    EnterAlternateScreen,
    /// Clear the screen, so that the next frame is drawn whole.
    Clear,
}

/// How the operation that the loop asked for went.
#[derive(Debug, PartialEq, Eq)]
pub enum Report<E> {
    /// An operation other than a poll succeeded.
    Done,
    /// A poll succeeded: the event that came within the timeout, if any.
    Polled(Option<Event>),
    /// The operation failed with this error.
    Failed(E),
}

/// What the loop asks of its host next.
#[derive(Debug, PartialEq, Eq)]
pub enum Command<E> {
    Perform(Op),
    /// The loop is over, with this result.
    Exit(Result<(), E>),
}

/// The operations of the editor bridge, in order.
pub open spec fn bridge_ops() -> Seq<Op> {
    seq![
        Op::LeaveAlternateScreen,
        Op::DisableRawMode,
        Op::SpawnEditor,
        Op::EnableRawMode,
        Op::EnterAlternateScreen,
        Op::Clear,
    ]
}

/// The operation that follows `op` when it succeeds: a frame is followed by a
/// poll, each step of the bridge by the next one, and the last step by a new
/// frame. What follows a poll depends on its event (see `step`).
pub open spec fn follow(op: Op) -> Op {
    match op {
        Op::Draw => Op::Poll,
        Op::Poll => Op::Draw,
        Op::LeaveAlternateScreen => Op::DisableRawMode,
        Op::DisableRawMode => Op::SpawnEditor,
        Op::SpawnEditor => Op::EnableRawMode,
        Op::EnableRawMode => Op::EnterAlternateScreen,
        Op::EnterAlternateScreen => Op::Clear,
        Op::Clear => Op::Draw,
    }
}

/// The phase of a loop that waits on `pending`, or that is over (`None`).
pub open spec fn state_of(pending: Option<Op>) -> LoopState {
    match pending {
        Option::None => LoopState::Terminated,
        Option::Some(Op::Draw) => LoopState::Running,
        Option::Some(Op::Poll) => LoopState::Running,
        Option::Some(_) => LoopState::Editing,
    }
}

/// The operation that a loop waits on after it has issued `cmd`.
pub open spec fn pending_after<E>(cmd: Command<E>) -> Option<Op> {
    match cmd {
        Command::Perform(op) => Option::Some(op),
        Command::Exit(_) => Option::None,
    }
}

/// What the loop asks for next, when it waited on `op` and got `report`.
/// A failure ends the loop with that error. A report that does not answer
/// `op` (a poll result for another operation, or a plain success for a poll)
/// asks for `op` again.
pub open spec fn step<E>(op: Op, report: Report<E>) -> Command<E> {
    match report {
        Report::Failed(e) => Command::Exit(Err(e)),
        Report::Done => if op == Op::Poll {
            Command::Perform(op)
        } else {
            Command::Perform(follow(op))
        },
        Report::Polled(polled) => if op != Op::Poll {
            Command::Perform(op)
        } else {
            match action_of(polled) {
                Action::Quit => Command::Exit(Ok(())),
                Action::EditFile => Command::Perform(Op::LeaveAlternateScreen),
                Action::Nothing => Command::Perform(Op::Draw),
            }
        },
    }
}

/// The event loop: the operation it waits on, or none once it is over.
pub struct EventLoop {
    pending: Option<Op>,
}

impl View for EventLoop {
    type V = Option<Op>;

    closed spec fn view(&self) -> Option<Op> {
        self.pending
    }
}

/// The operation that follows `op` when it succeeds (`follow`).
fn next_op(op: Op) -> (r: Op)
    ensures
        r == follow(op),
{
    match op {
        Op::Draw => Op::Poll,
        Op::Poll => Op::Draw,
        Op::LeaveAlternateScreen => Op::DisableRawMode,
        Op::DisableRawMode => Op::SpawnEditor,
        Op::SpawnEditor => Op::EnableRawMode,
        Op::EnableRawMode => Op::EnterAlternateScreen,
        Op::EnterAlternateScreen => Op::Clear,
        Op::Clear => Op::Draw,
    }
}

impl EventLoop {
    /// A loop that starts Running and asks first for a frame.
    pub fn new() -> (r: EventLoop)
        ensures
            r@ == Option::Some(Op::Draw),
            state_of(r@) == LoopState::Running,
    {
        EventLoop { pending: Option::Some(Op::Draw) }
    }

    /// The operation the loop waits on; `None` once it is over.
    pub fn pending(&self) -> (r: Option<Op>)
        ensures
            r == self@,
    {
        self.pending
    }

    /// The phase of the loop.
    pub fn state(&self) -> (r: LoopState)
        ensures
            r == state_of(self@),
    {
        match self.pending {
            Option::None => LoopState::Terminated,
            Option::Some(Op::Draw) => LoopState::Running,
            Option::Some(Op::Poll) => LoopState::Running,
            Option::Some(_) => LoopState::Editing,
        }
    }

    /// Whether the loop is over.
    pub fn is_finished(&self) -> (r: bool)
        ensures
            r == (self@ is None),
            r == (state_of(self@) == LoopState::Terminated),
    {
        self.pending.is_none()
    }

    /// Takes the report on the operation the loop waited on and says what
    /// comes next: the next operation, or the end of the loop with its result.
    pub fn advance<E>(&mut self, report: Report<E>) -> (cmd: Command<E>)
        requires
            old(self)@ is Some,
        ensures
            cmd == step(old(self)@->0, report),
            final(self)@ == pending_after(cmd),
    {
        let op = self.pending.unwrap();
        let cmd = match report {
            Report::Failed(e) => Command::Exit(Err(e)),
            Report::Done => if op == Op::Poll {
                Command::Perform(op)
            } else {
                Command::Perform(next_op(op))
            },
            Report::Polled(polled) => if op != Op::Poll {
                Command::Perform(op)
            } else {
                match handle_events(polled) {
                    Action::Quit => Command::Exit(Ok(())),
                    Action::EditFile => Command::Perform(Op::LeaveAlternateScreen),
                    Action::Nothing => Command::Perform(Op::Draw),
                }
            },
        };
        self.pending = match &cmd {
            Command::Perform(next) => Option::Some(*next),
            Command::Exit(_) => Option::None,
        };
        cmd
    }
}

} // verus!
