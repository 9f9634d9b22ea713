//! Identity of the swing structure a setup is built on, and location events.
use crate::market::{direction_allowed, direction_permitted, Direction, MarketState};
use crate::session::{in_entry_window, EtTime, SessionPermissions};
use crate::setup_state::{SetupState, TerminalState};
use vstd::prelude::*;

verus! {

/// The swing structure a setup is bound to: its direction and its start and end bars.
#[derive(Debug, Clone, Copy, PartialEq, Eq, Structural)]
pub struct StructureKey {
    pub direction: Direction,
    pub start_index: usize,
    pub end_index: usize,
}

/// Whether a confirmed swing is a high or a low.
#[derive(Debug, Clone, Copy, PartialEq, Eq, Structural)]
pub enum SwingKind {
    High,
    Low,
}

#[derive(Debug, Clone, Copy, PartialEq, Eq, Structural)]
pub enum LocationEvent {
    NoEvent,
    Reached,
    Invalidated,
}

/// Whether `candidate` occurs among the structures already used.
pub fn structure_known(known_structures: &[StructureKey], candidate: StructureKey) -> (r: bool)
    ensures
        r == known_structures@.contains(candidate),
{
    let mut i: usize = 0;
    while i < known_structures.len()
        invariant
            i <= known_structures@.len(),
            forall|j: int| 0 <= j < i ==> known_structures@[j] != candidate,
        decreases known_structures@.len() - i,
    {
        if known_structures[i] == candidate {
            return true;
        }
        i = i + 1;
    }
    false
}

/// The states in which a 0.886 breach still invalidates a setup: every state from CREATED up to
/// SECOND_FAILURE, before the final reconfirmation.
pub open spec fn invalidation_window(state: SetupState) -> bool {
    match state.rank() {
        Some(n) => n <= 8,
        None => false,
    }
}

/// Whether a 0.886 breach still invalidates a setup in this state.
#[must_use]
pub fn invalidation_active(state: SetupState) -> (r: bool)
    ensures
        r == invalidation_window(state),
{
    match state {
        SetupState::Created
        | SetupState::WaitingForLocation
        | SetupState::LocationReached
        | SetupState::AggressionPresent
        | SetupState::PotentialAbsorption
        | SetupState::FirstDominanceShift
        | SetupState::WaitingSecondTest
        | SetupState::SecondTest
        | SetupState::SecondFailure => true,
        _ => false,
    }
}

/// An invalidated structure cannot be reused: a new setup identifier is needed exactly when the
/// setup was invalidated and the candidate is a different structure.
#[must_use]
pub fn requires_new_setup_id(state: SetupState, structure: StructureKey, candidate: StructureKey) -> (r:
    bool)
    ensures
        r == (state == SetupState::Terminal(TerminalState::Invalidated) && candidate != structure),
{
    state == SetupState::Terminal(TerminalState::Invalidated) && candidate != structure
}

/// A structure can carry a setup only when its start bar precedes its end bar and the market
/// state permits its direction.
#[must_use]
pub fn structure_eligible(structure: StructureKey, market_state: MarketState) -> (r: bool)
    ensures
        r == (structure.start_index < structure.end_index && direction_permitted(
            market_state,
            structure.direction,
        )),
{
    structure.start_index < structure.end_index && direction_allowed(
        market_state,
        structure.direction,
    )
}

/// A fresh setup may start from new structure only while new entries are allowed and only when
/// the structure has never been used before.
#[must_use]
pub fn new_structure_allowed(
    time_et: EtTime,
    known_structures: &[StructureKey],
    candidate: StructureKey,
) -> (r: bool)
    ensures
        r == (in_entry_window(time_et) && !known_structures@.contains(candidate)),
{
    SessionPermissions::at(time_et).allow_new_entries && !structure_known(known_structures, candidate)
}

/// The effect of observing a price on a setup's location lifecycle, given whether the price is
/// usable, whether it breaches the 0.886 invalidation level and whether it touches the zone. An
/// unusable price or a terminal setup changes nothing; a breach inside the invalidation window
/// ends the setup INVALIDATED; otherwise a touch moves WAITING_FOR_LOCATION to LOCATION_REACHED.
pub open spec fn location_step_result(
    state: SetupState,
    price_usable: bool,
    breached: bool,
    touched: bool,
) -> (LocationEvent, SetupState) {
    if !price_usable || state.is_terminal() {
        (LocationEvent::NoEvent, state)
    } else if breached && invalidation_window(state) {
        (LocationEvent::Invalidated, SetupState::Terminal(TerminalState::Invalidated))
    } else if state == SetupState::WaitingForLocation && touched {
        (LocationEvent::Reached, SetupState::LocationReached)
    } else {
        (LocationEvent::NoEvent, state)
    }
}

/// One location observation: the event and the state that follows.
#[must_use]
pub fn location_step(state: SetupState, price_usable: bool, breached: bool, touched: bool) -> (r: (
    LocationEvent,
    SetupState,
))
    ensures
        r == location_step_result(state, price_usable, breached, touched),
{
    if !price_usable {
        return (LocationEvent::NoEvent, state);
    }
    if let SetupState::Terminal(_) = state {
        return (LocationEvent::NoEvent, state);
    }
    if breached && invalidation_active(state) {
        return (LocationEvent::Invalidated, state.terminate(TerminalState::Invalidated));
    }
    if state == SetupState::WaitingForLocation && touched {
        if let Ok(next) = state.advance(SetupState::LocationReached) {
            return (LocationEvent::Reached, next);
        }
    }
    (LocationEvent::NoEvent, state)
}

/// A location observation never skips a state: the setup stays put, reaches its location from
/// WAITING_FOR_LOCATION, or ends INVALIDATED from inside the invalidation window; a terminal
/// setup never changes.
pub proof fn lemma_location_step_never_skips(
    state: SetupState,
    price_usable: bool,
    breached: bool,
    touched: bool,
)
    ensures
        ({
            let (event, next) = location_step_result(state, price_usable, breached, touched);
            &&& event == LocationEvent::NoEvent <==> next == state
            &&& event == LocationEvent::Reached ==> state == SetupState::WaitingForLocation
                && next == SetupState::LocationReached
            &&& event == LocationEvent::Invalidated ==> invalidation_window(state)
                && next == SetupState::Terminal(TerminalState::Invalidated)
            &&& state.is_terminal() ==> next == state
        }),
{
}

} // verus!
