//! The state discipline shared by the long and short order-flow sequences: each step is bound to
//! one expected state and moves at most to its direct successor.
use crate::setup_state::SetupState;
use crate::truth::Condition;
use vstd::prelude::*;

verus! {

/// The outcome of one order-flow step from `current`, for a step that belongs to `expected`,
/// given its evidence (`None` when the stored evidence it needs is missing or not finite).
/// A step asked in any other state answers FALSE and changes nothing; missing evidence answers
/// UNKNOWN and changes nothing; otherwise the evidence is the answer, and only a TRUE answer moves
/// the sequence to the next state.
pub open spec fn sequence_step_result(
    current: SetupState,
    expected: SetupState,
    evidence: Option<Condition>,
) -> (Condition, SetupState) {
    if current != expected {
        (Condition::False, current)
    } else {
        match evidence {
            None => (Condition::Unknown, current),
            Some(c) => if c == Condition::True && current.successor() is Some {
                (c, current.successor().unwrap())
            } else {
                (c, current)
            },
        }
    }
}

/// One order-flow step: the answer and the state that follows.
#[must_use]
pub fn sequence_step(current: SetupState, expected: SetupState, evidence: Option<Condition>) -> (r: (
    Condition,
    SetupState,
))
    ensures
        r == sequence_step_result(current, expected, evidence),
{
    if current != expected {
        return (Condition::False, current);
    }
    match evidence {
        None => (Condition::Unknown, current),
        Some(answer) => {
            if answer.permits() {
                if let Some(next) = current.next() {
                    return (answer, next);
                }
            }
            (answer, current)
        },
    }
}

/// Whether an order-flow sequence may start from a setup state: only at LOCATION_REACHED.
#[must_use]
pub fn sequence_may_start(state: SetupState) -> (r: bool)
    ensures
        r == (state == SetupState::LocationReached),
{
    state == SetupState::LocationReached
}

/// An order-flow step never skips a state: it stays put or moves to the direct successor, and it
/// moves exactly when it belongs to the current state and its evidence is TRUE.
pub proof fn lemma_step_never_skips(
    current: SetupState,
    expected: SetupState,
    evidence: Option<Condition>,
)
    requires
        expected.successor() is Some,
    ensures
        ({
            let (answer, next) = sequence_step_result(current, expected, evidence);
            &&& next == current || Some(next) == current.successor()
            &&& (next != current) <==> (current == expected && evidence == Some(Condition::True))
            &&& next != current ==> answer == Condition::True
        }),
{
    if current == expected {
        assert(current.successor() != Some(current)) by {
            crate::setup_state::lemma_advance_moves_one_rank(current, current);
        }
    }
}

} // verus!
