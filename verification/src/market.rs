//! Market states and trade directions.
use vstd::prelude::*;

verus! {

/// The market states the environment can be in.
#[derive(Debug, Clone, Copy, PartialEq, Eq, Structural)]
pub enum MarketState {
    ValueUp,
    ValueDown,
    Balanced,
    Unclear,
}

#[derive(Debug, Clone, Copy, PartialEq, Eq, Structural)]
pub enum Direction {
    Long,
    Short,
}

/// Longs are permitted only in VALUE_UP, shorts only in VALUE_DOWN.
pub open spec fn direction_permitted(state: MarketState, direction: Direction) -> bool {
    (state == MarketState::ValueUp && direction == Direction::Long) || (state
        == MarketState::ValueDown && direction == Direction::Short)
}

/// Direction permission from the market state.
#[must_use]
pub fn direction_allowed(state: MarketState, direction: Direction) -> (r: bool)
    ensures
        r == direction_permitted(state, direction),
{
    match (state, direction) {
        (MarketState::ValueUp, Direction::Long) => true,
        (MarketState::ValueDown, Direction::Short) => true,
        _ => false,
    }
}

/// Balanced and unclear markets permit no direction, and no market permits both.
pub proof fn lemma_direction_permission_exclusive(state: MarketState)
    ensures
        (state == MarketState::Balanced || state == MarketState::Unclear) ==> (
        !direction_permitted(state, Direction::Long) && !direction_permitted(
            state,
            Direction::Short,
        )),
        !(direction_permitted(state, Direction::Long) && direction_permitted(
            state,
            Direction::Short,
        )),
{
}

} // verus!
