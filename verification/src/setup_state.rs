//! The ordered setup lifecycle. No live state may be skipped, and terminal states are final.
use vstd::prelude::*;

verus! {

/// Ordered setup states.
#[derive(Debug, Clone, Copy, PartialEq, Eq, Structural)]
pub enum SetupState {
    Created,
    WaitingForLocation,
    LocationReached,
    AggressionPresent,
    PotentialAbsorption,
    FirstDominanceShift,
    WaitingSecondTest,
    SecondTest,
    SecondFailure,
    FinalReconfirmation,
    EntryAuthorized,
    OrderPending,
    Filled,
    PositionManagement,
    Closed,
    Terminal(TerminalState),
}

#[derive(Debug, Clone, Copy, PartialEq, Eq, Structural)]
pub enum TerminalState {
    Invalidated,
    Expired,
    Rejected,
    Missed,
    Cancelled,
}

#[derive(Debug, Clone, Copy, PartialEq, Eq, Structural)]
pub enum SetupStateError {
    StateSkip,
    AlreadyTerminal,
}

impl SetupState {
    /// Position of a live state in the lifecycle order; terminal states have none.
    pub open spec fn rank(self) -> Option<nat> {
        match self {
            SetupState::Created => Some(0),
            SetupState::WaitingForLocation => Some(1),
            SetupState::LocationReached => Some(2),
            SetupState::AggressionPresent => Some(3),
            SetupState::PotentialAbsorption => Some(4),
            SetupState::FirstDominanceShift => Some(5),
            SetupState::WaitingSecondTest => Some(6),
            SetupState::SecondTest => Some(7),
            SetupState::SecondFailure => Some(8),
            SetupState::FinalReconfirmation => Some(9),
            SetupState::EntryAuthorized => Some(10),
            SetupState::OrderPending => Some(11),
            SetupState::Filled => Some(12),
            SetupState::PositionManagement => Some(13),
            SetupState::Closed => Some(14),
            SetupState::Terminal(_) => None,
        }
    }

    /// The live state of a given rank.
    pub open spec fn of_rank(n: nat) -> Option<SetupState> {
        if n == 0 {
            Some(SetupState::Created)
        } else if n == 1 {
            Some(SetupState::WaitingForLocation)
        } else if n == 2 {
            Some(SetupState::LocationReached)
        } else if n == 3 {
            Some(SetupState::AggressionPresent)
        } else if n == 4 {
            Some(SetupState::PotentialAbsorption)
        } else if n == 5 {
            Some(SetupState::FirstDominanceShift)
        } else if n == 6 {
            Some(SetupState::WaitingSecondTest)
        } else if n == 7 {
            Some(SetupState::SecondTest)
        } else if n == 8 {
            Some(SetupState::SecondFailure)
        } else if n == 9 {
            Some(SetupState::FinalReconfirmation)
        } else if n == 10 {
            Some(SetupState::EntryAuthorized)
        } else if n == 11 {
            Some(SetupState::OrderPending)
        } else if n == 12 {
            Some(SetupState::Filled)
        } else if n == 13 {
            Some(SetupState::PositionManagement)
        } else if n == 14 {
            Some(SetupState::Closed)
        } else {
            None
        }
    }

    /// The state that directly follows this one: the live state of the next rank.
    pub open spec fn successor(self) -> Option<SetupState> {
        match self.rank() {
            Some(n) => SetupState::of_rank(n + 1),
            None => None,
        }
    }

    pub open spec fn is_terminal(self) -> bool {
        self is Terminal
    }

    /// The result of requesting `requested` as the next state.
    pub open spec fn advance_result(self, requested: SetupState) -> Result<
        SetupState,
        SetupStateError,
    > {
        if self.is_terminal() {
            Err(SetupStateError::AlreadyTerminal)
        } else if self.successor() == Some(requested) {
            Ok(requested)
        } else {
            Err(SetupStateError::StateSkip)
        }
    }

    /// The result of terminating: closed and terminal states stay as they are.
    pub open spec fn terminate_result(self, terminal: TerminalState) -> SetupState {
        match self {
            SetupState::Closed | SetupState::Terminal(_) => self,
            _ => SetupState::Terminal(terminal),
        }
    }

    /// The state that directly follows this one; none after CLOSED or a terminal state.
    #[must_use]
    pub fn next(self) -> (r: Option<Self>)
        ensures
            r == self.successor(),
    {
        match self {
            SetupState::Created => Some(SetupState::WaitingForLocation),
            SetupState::WaitingForLocation => Some(SetupState::LocationReached),
            SetupState::LocationReached => Some(SetupState::AggressionPresent),
            SetupState::AggressionPresent => Some(SetupState::PotentialAbsorption),
            SetupState::PotentialAbsorption => Some(SetupState::FirstDominanceShift),
            SetupState::FirstDominanceShift => Some(SetupState::WaitingSecondTest),
            SetupState::WaitingSecondTest => Some(SetupState::SecondTest),
            SetupState::SecondTest => Some(SetupState::SecondFailure),
            SetupState::SecondFailure => Some(SetupState::FinalReconfirmation),
            SetupState::FinalReconfirmation => Some(SetupState::EntryAuthorized),
            SetupState::EntryAuthorized => Some(SetupState::OrderPending),
            SetupState::OrderPending => Some(SetupState::Filled),
            SetupState::Filled => Some(SetupState::PositionManagement),
            SetupState::PositionManagement => Some(SetupState::Closed),
            SetupState::Closed | SetupState::Terminal(_) => None,
        }
    }

    /// Moves to `requested` only when it is exactly the next state.
    pub fn advance(self, requested: Self) -> (r: Result<Self, SetupStateError>)
        ensures
            r == self.advance_result(requested),
    {
        if let SetupState::Terminal(_) = self {
            return Err(SetupStateError::AlreadyTerminal);
        }
        match self.next() {
            Some(next) if next == requested => Ok(requested),
            _ => Err(SetupStateError::StateSkip),
        }
    }

    /// Ends a live setup in a terminal state; closed and terminal setups are unchanged.
    #[must_use]
    pub fn terminate(self, terminal: TerminalState) -> (r: Self)
        ensures
            r == self.terminate_result(terminal),
    {
        match self {
            SetupState::Closed | SetupState::Terminal(_) => self,
            _ => SetupState::Terminal(terminal),
        }
    }
}

/// A successful advance moves exactly one rank forward; nothing ever moves backward or skips.
pub proof fn lemma_advance_moves_one_rank(state: SetupState, requested: SetupState)
    ensures
        state.advance_result(requested) is Ok ==> (state.rank() is Some && requested.rank() is Some
            && requested.rank().unwrap() == state.rank().unwrap() + 1),
{
}

/// A terminal state can never be advanced, and terminating it again changes nothing.
pub proof fn lemma_terminal_is_final(state: SetupState, requested: SetupState, t: TerminalState)
    requires
        state.is_terminal(),
    ensures
        state.advance_result(requested) == Err::<SetupState, SetupStateError>(
            SetupStateError::AlreadyTerminal,
        ),
        state.terminate_result(t) == state,
{
}

/// Every live state other than CLOSED has exactly one state it may advance to, and CLOSED
/// has none.
pub proof fn lemma_unique_successor(state: SetupState, a: SetupState, b: SetupState)
    ensures
        state.advance_result(a) is Ok && state.advance_result(b) is Ok ==> a == b,
        state == SetupState::Closed ==> state.advance_result(a) is Err,
{
}

/// Requested states that are not exactly the next one are refused as skips.
pub proof fn lemma_skip_refused(state: SetupState, requested: SetupState)
    requires
        !state.is_terminal(),
        state.successor() != Some(requested),
    ensures
        state.advance_result(requested) == Err::<SetupState, SetupStateError>(
            SetupStateError::StateSkip,
        ),
{
}

/// The result of applying a list of requested transitions one after another, stopping at
/// the first refusal.
pub open spec fn run(start: SetupState, requests: Seq<SetupState>) -> Result<
    SetupState,
    SetupStateError,
>
    decreases requests.len(),
{
    if requests.len() == 0 {
        Ok(start)
    } else {
        match start.advance_result(requests[0]) {
            Ok(next) => run(next, requests.drop_first()),
            Err(e) => Err(e),
        }
    }
}

/// Starting from CREATED, a run of advances that succeeds reaches the state whose rank is the
/// number of advances, so every intermediate state was visited in order.
pub proof fn lemma_run_visits_every_state(start: SetupState, requests: Seq<SetupState>)
    requires
        start.rank() is Some,
        run(start, requests) is Ok,
    ensures
        run(start, requests).unwrap().rank() == Some((start.rank().unwrap() + requests.len()) as nat),
        forall|i: int|
            0 <= i < requests.len() ==> (#[trigger] requests[i]).rank() == Some(
                (start.rank().unwrap() + i + 1) as nat,
            ),
    decreases requests.len(),
{
    if requests.len() > 0 {
        let next = start.advance_result(requests[0]).unwrap();
        lemma_run_visits_every_state(next, requests.drop_first());
        assert forall|i: int| 0 <= i < requests.len() implies (#[trigger] requests[i]).rank()
            == Some((start.rank().unwrap() + i + 1) as nat) by {
            if i > 0 {
                assert(requests[i] == requests.drop_first()[i - 1]);
            }
        }
    }
}

} // verus!
