//! A turn of the main thread: what it does, in which order, and how much of it.

use vstd::prelude::*;

verus! {

/// The most messages that are handled in a turn.
pub const MAIN_LOOPER_MESSAGE_BUDGET: usize = 512;

/// Enters a turn, where none is going on.
pub fn enter_turn(in_turn: &mut bool) -> (entered: bool)
    ensures
        entered == !*old(in_turn),
        *final(in_turn),
{
    let entered = !*in_turn;
    *in_turn = true;
    entered
}

/// Leaves a turn.
pub fn leave_turn(in_turn: &mut bool)
    ensures
        !*final(in_turn),
{
    *in_turn = false;
}

/// Whether another message is looked for: the last look found one, and there is
/// budget left.
pub fn looks_for_message(handled: usize, last_was_empty: bool) -> (b: bool)
    ensures
        b == (!last_was_empty && handled < MAIN_LOOPER_MESSAGE_BUDGET),
        b == (!last_was_empty && handled < 512),
{
    !last_was_empty && handled < MAIN_LOOPER_MESSAGE_BUDGET
}

/// Something done with a message.
#[derive(Debug, Clone, Copy, PartialEq, Eq, Structural)]
pub enum MessageStep {
    Dispatch,
    Recycle,
}

/// What is done with a message, in order: its target handles it, where it has one,
/// and it goes back to where messages come from. Neither is left out where the
/// other fails.
pub fn message_steps(has_target: bool) -> (steps: Vec<MessageStep>)
    ensures
        steps@ == (if has_target {
            seq![MessageStep::Dispatch, MessageStep::Recycle]
        } else {
            seq![MessageStep::Recycle]
        }),
{
    let mut steps: Vec<MessageStep> = Vec::new();
    if has_target {
        steps.push(MessageStep::Dispatch);
    }
    steps.push(MessageStep::Recycle);
    steps
}

/// The parts of a turn.
#[derive(Debug, Clone, Copy, PartialEq, Eq, Structural)]
pub enum TurnPart {
    /// Work that other threads handed in.
    HandedInWork,
    Messages,
    /// Telling the observers of layouts.
    Layouts,
}

/// The parts of a turn, in order. All are done, whatever fails.
pub fn turn_parts() -> (parts: [TurnPart; 3])
    ensures
        parts@ == seq![TurnPart::HandedInWork, TurnPart::Messages, TurnPart::Layouts],
{
    let parts = [TurnPart::HandedInWork, TurnPart::Messages, TurnPart::Layouts];
    assert(parts@ =~= seq![TurnPart::HandedInWork, TurnPart::Messages, TurnPart::Layouts]);
    parts
}

/// How a turn ended: with the error of its messages, else with that of its layouts,
/// else well.
pub fn turn_result<E>(messages: Result<(), E>, layouts: Result<(), E>) -> (result: Result<(), E>)
    ensures
        result == (match messages {
            Err(e) => Err(e),
            Ok(()) => layouts,
        }),
{
    match messages {
        Err(e) => Err(e),
        Ok(()) => layouts,
    }
}

} // verus!
