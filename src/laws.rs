//! Properties of the event loop over whole runs of reports.
use vstd::prelude::*;
use crate::action::{action_of, Action, EDIT_KEY, QUIT_KEY};
use crate::event_loop::{bridge_ops, pending_after, state_of, step, Command, LoopState, Op, Report};
use crate::input::{Event, KeyCode, KeyEvent, KeyEventKind};

verus! {

/// The commands that a loop waiting on `op` issues for `reports`, one for
/// each report, up to and including an `Exit`.
pub open spec fn run<E>(op: Op, reports: Seq<Report<E>>) -> Seq<Command<E>>
    decreases reports.len(),
{
    if reports.len() == 0 {
        seq![]
    } else {
        let cmd = step(op, reports[0]);
        match cmd {
            Command::Perform(next) => seq![cmd].add(run(next, reports.drop_first())),
            Command::Exit(_) => seq![cmd],
        }
    }
}

/// A press of the character key `c`.
pub open spec fn press(c: char) -> Event {
    Event::Key(KeyEvent { code: KeyCode::Char(c), kind: KeyEventKind::Press })
}

/// A key event whose key is neither the quit key nor the edit key asks for
/// nothing: the loop, waiting on a poll, goes on to draw the next frame and
/// stays Running.
pub proof fn other_keys_change_nothing<E>(k: KeyEvent)
    requires
        k.code != KeyCode::Char(QUIT_KEY),
        k.code != KeyCode::Char(EDIT_KEY),
    ensures
        action_of(Option::Some(Event::Key(k))) == Action::Nothing,
        step(Op::Poll, Report::<E>::Polled(Option::Some(Event::Key(k)))) == Command::<E>::Perform(Op::Draw),
        state_of(Option::Some(Op::Draw)) == state_of(Option::Some(Op::Poll)),
        state_of(Option::Some(Op::Poll)) == LoopState::Running,
{
}

/// A key event that is not a press (a repeat or a release) asks for nothing,
/// whatever its key.
pub proof fn non_press_changes_nothing<E>(k: KeyEvent)
    requires
        k.kind != KeyEventKind::Press,
    ensures
        action_of(Option::Some(Event::Key(k))) == Action::Nothing,
        step(Op::Poll, Report::<E>::Polled(Option::Some(Event::Key(k)))) == Command::<E>::Perform(Op::Draw),
{
}

/// A press of the quit key ends the loop with success at the poll that
/// receives it, whatever came before.
pub proof fn quit_key_ends_loop<E>()
    ensures
        step(Op::Poll, Report::<E>::Polled(Option::Some(press(QUIT_KEY)))) == Command::<E>::Exit(Ok(())),
        state_of(pending_after(Command::<E>::Exit(Ok(())))) == LoopState::Terminated,
{
}

/// A press of the edit key runs the editor bridge once: when each of its
/// steps succeeds, the loop asks for exactly the bridge's operations in
/// order, the editor among them once, and then for a new frame, Running again.
pub proof fn edit_key_runs_bridge_once<E>()
    ensures
        run(Op::Poll, seq![
            Report::<E>::Polled(Option::Some(press(EDIT_KEY))),
            Report::Done, Report::Done, Report::Done,
            Report::Done, Report::Done, Report::Done,
        ]) == bridge_ops().map_values(|op: Op| Command::<E>::Perform(op)).push(
            Command::Perform(Op::Draw),
        ),
        bridge_ops().filter(|op: Op| op == Op::SpawnEditor).len() == 1,
        forall|i: int| 0 <= i < bridge_ops().len() ==> state_of(Option::Some(#[trigger] bridge_ops()[i])) == LoopState::Editing,
        state_of(Option::Some(Op::Draw)) == LoopState::Running,
{
    reveal_with_fuel(run, 8);
    let reports = seq![
        Report::<E>::Polled(Option::Some(press(EDIT_KEY))),
        Report::Done, Report::Done, Report::Done,
        Report::Done, Report::Done, Report::Done,
    ];
    assert(reports.drop_first().drop_first().drop_first().drop_first().drop_first().drop_first().drop_first() =~= Seq::<Report<E>>::empty());
    assert(run(Op::Poll, reports) =~= bridge_ops().map_values(|op: Op| Command::<E>::Perform(op)).push(
        Command::Perform(Op::Draw),
    ));
    reveal_with_fuel(Seq::filter, 7);
    assert(bridge_ops().filter(|op: Op| op == Op::SpawnEditor) =~= seq![Op::SpawnEditor]);
}

/// When no event comes within the poll timeout, the loop stays Running and
/// asks for a new frame: it does not run the bridge.
pub proof fn timeout_changes_nothing<E>()
    ensures
        action_of(Option::None) == Action::Nothing,
        step(Op::Poll, Report::<E>::Polled(Option::None)) == Command::<E>::Perform(Op::Draw),
        !bridge_ops().contains(Op::Draw),
{
    assert(bridge_ops()[0] != Op::Draw);
    assert(bridge_ops()[1] != Op::Draw);
    assert(bridge_ops()[2] != Op::Draw);
    assert(bridge_ops()[3] != Op::Draw);
    assert(bridge_ops()[4] != Op::Draw);
    assert(bridge_ops()[5] != Op::Draw);
}

/// A failure of any operation ends the loop at once with that error, and no
/// further operation is asked for.
pub proof fn failure_ends_loop<E>(op: Op, e: E, rest: Seq<Report<E>>)
    ensures
        run(op, seq![Report::Failed(e)].add(rest)) == seq![Command::<E>::Exit(Err(e))],
{
    reveal_with_fuel(run, 2);
    assert(seq![Report::Failed(e)].add(rest)[0] == Report::<E>::Failed(e));
}

} // verus!
