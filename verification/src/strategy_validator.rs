//! Deterministic pre-risk strategy validation and its sealed result.
use crate::data::DataCycleReadiness;
use crate::location::StructureKey;
use crate::market::{direction_allowed, direction_permitted, Direction, MarketState};
use crate::news::{evaluate_news_gate, news_gate, NewsBlackoutWindow};
use crate::rejection::RejectionCode;
use crate::session::{in_entry_window, EtTime, SessionPermissions};
use crate::setup_state::{SetupState, TerminalState};
use crate::text::{blank, is_blank, str_equal};
use crate::truth::{conjunction, Condition};
use vstd::prelude::*;

verus! {

/// Observable content of a validation proof.
pub struct StrategyValidationProofView {
    pub setup_id: Seq<char>,
    pub owner_agent_id: Seq<char>,
    pub instrument: Seq<char>,
    pub direction: Direction,
    pub market_state: MarketState,
}

/// Proof that the strategy validator passed its pre-risk responsibilities for a setup. It is
/// sealed: its content can be read but not changed.
#[derive(Debug, Clone, PartialEq)]
pub struct StrategyValidationProof {
    setup_id: String,
    owner_agent_id: String,
    instrument: String,
    direction: Direction,
    market_state: MarketState,
}

impl View for StrategyValidationProof {
    type V = StrategyValidationProofView;

    closed spec fn view(&self) -> StrategyValidationProofView {
        StrategyValidationProofView {
            setup_id: self.setup_id@,
            owner_agent_id: self.owner_agent_id@,
            instrument: self.instrument@,
            direction: self.direction,
            market_state: self.market_state,
        }
    }
}

impl StrategyValidationProof {
    /// Seals the identity, direction and market state that validation established.
    pub fn seal(
        setup_id: &str,
        owner_agent_id: &str,
        instrument: &str,
        direction: Direction,
        market_state: MarketState,
    ) -> (r: Self)
        ensures
            r@.setup_id == setup_id@,
            r@.owner_agent_id == owner_agent_id@,
            r@.instrument == instrument@,
            r@.direction == direction,
            r@.market_state == market_state,
    {
        StrategyValidationProof {
            setup_id: setup_id.to_owned(),
            owner_agent_id: owner_agent_id.to_owned(),
            instrument: instrument.to_owned(),
            direction,
            market_state,
        }
    }

    #[must_use]
    pub fn setup_id(&self) -> (r: &str)
        ensures
            r@ == self@.setup_id,
    {
        self.setup_id.as_str()
    }

    #[must_use]
    pub fn owner_agent_id(&self) -> (r: &str)
        ensures
            r@ == self@.owner_agent_id,
    {
        self.owner_agent_id.as_str()
    }

    #[must_use]
    pub fn instrument(&self) -> (r: &str)
        ensures
            r@ == self@.instrument,
    {
        self.instrument.as_str()
    }

    #[must_use]
    pub fn direction(&self) -> (r: Direction)
        ensures
            r == self@.direction,
    {
        self.direction
    }

    #[must_use]
    pub fn market_state(&self) -> (r: MarketState)
        ensures
            r == self@.market_state,
    {
        self.market_state
    }
}

/// The facts the strategy validator decides on, each recomputed by its owning component: the
/// market state from the environment evaluation, whether the Fib levels recalculated from the
/// impulse equal the stored ones, whether the zone lies outside the locked value area, and
/// whether the order-flow sequence holds finite first-failure and reconfirmation extremes.
/// The scenario fields come from a frozen premarket scenario, which exists only for a complete
/// plan.
#[derive(Debug, Clone, Copy)]
pub struct StrategyFacts<'a> {
    pub setup_id: &'a str,
    pub owner_agent_id: &'a str,
    pub instrument: &'a str,
    pub now_et: EtTime,
    pub data_readiness: DataCycleReadiness,
    pub scenario_agent_id: &'a str,
    pub scenario_instrument: &'a str,
    pub market_state: MarketState,
    pub location_structure: StructureKey,
    pub location_state: SetupState,
    pub location_created_at: EtTime,
    pub fib_levels_recalculated: bool,
    pub zone_outside_locked_value: bool,
    pub orderflow_direction: Direction,
    pub orderflow_structure: StructureKey,
    pub orderflow_state: SetupState,
    pub first_failure_extreme_finite: bool,
    pub reconfirmation_extreme_finite: bool,
    pub news_schedule_valid: Condition,
    pub news_windows: &'a [NewsBlackoutWindow],
}

/// The validator's decision, checked in a fixed order: identity, the entry window, data
/// readiness, the premarket scenario's owner and instrument, the market state, the direction,
/// the structure binding, the Fib recalculation, the locked value location, the location state,
/// the final reconfirmation, the setup's start time, the news gate, and the sealed extremes.
pub open spec fn strategy_check(f: StrategyFacts) -> Result<(), RejectionCode> {
    let direction = f.location_structure.direction;
    let news = news_gate(f.now_et, Some(f.location_created_at), f.news_schedule_valid, f.news_windows@);
    if blank(f.setup_id@) || blank(f.owner_agent_id@) || blank(f.instrument@) {
        Err(RejectionCode::ProcessError)
    } else if !in_entry_window(f.now_et) {
        Err(RejectionCode::TimeCutoff)
    } else if conjunction(f.data_readiness.conditions()) != Condition::True {
        Err(RejectionCode::DataInvalid)
    } else if f.scenario_agent_id@ != f.owner_agent_id@ || f.scenario_instrument@ != f.instrument@ {
        Err(RejectionCode::ProcessError)
    } else if f.market_state == MarketState::Balanced {
        Err(RejectionCode::Balanced)
    } else if f.market_state == MarketState::Unclear {
        Err(RejectionCode::StructureUnclear)
    } else if f.orderflow_direction != direction || !direction_permitted(f.market_state, direction) {
        Err(RejectionCode::WrongDirection)
    } else if f.orderflow_structure != f.location_structure || !f.fib_levels_recalculated {
        Err(RejectionCode::ProcessError)
    } else if !f.zone_outside_locked_value {
        Err(RejectionCode::ZoneInsideValue)
    } else if f.location_state == SetupState::Terminal(TerminalState::Invalidated) {
        Err(RejectionCode::Fib886Invalidation)
    } else if f.location_state != SetupState::LocationReached {
        Err(RejectionCode::ProcessError)
    } else if f.orderflow_state != SetupState::FinalReconfirmation {
        Err(RejectionCode::NoReconfirmation)
    } else if f.location_created_at.secs() > f.now_et.secs() {
        Err(RejectionCode::ProcessError)
    } else if news.news_blackout_clear != Condition::True || !news.allow_new_entries {
        Err(RejectionCode::NewsBlackout)
    } else if !f.first_failure_extreme_finite {
        Err(RejectionCode::ProcessError)
    } else if !f.reconfirmation_extreme_finite {
        Err(RejectionCode::NoReconfirmation)
    } else {
        Ok(())
    }
}

/// Deterministic pre-risk validation. On success the proof seals the setup's identity, its
/// structure's direction and the market state; sizing, portfolio exposure, duplicate state and
/// broker state belong to later components.
pub fn validate_strategy_facts(facts: StrategyFacts<'_>) -> (r: Result<
    StrategyValidationProof,
    RejectionCode,
>)
    ensures
        match strategy_check(facts) {
            Err(e) => r == Err::<StrategyValidationProof, RejectionCode>(e),
            Ok(_) => r matches Ok(p) && p@ == (StrategyValidationProofView {
                setup_id: facts.setup_id@,
                owner_agent_id: facts.owner_agent_id@,
                instrument: facts.instrument@,
                direction: facts.location_structure.direction,
                market_state: facts.market_state,
            }),
        },
{
    if is_blank(facts.setup_id) || is_blank(facts.owner_agent_id) || is_blank(facts.instrument) {
        return Err(RejectionCode::ProcessError);
    }
    if !SessionPermissions::at(facts.now_et).allow_new_entries {
        return Err(RejectionCode::TimeCutoff);
    }
    if !facts.data_readiness.validity().permits() {
        return Err(RejectionCode::DataInvalid);
    }
    if !str_equal(facts.scenario_agent_id, facts.owner_agent_id) || !str_equal(
        facts.scenario_instrument,
        facts.instrument,
    ) {
        return Err(RejectionCode::ProcessError);
    }
    match facts.market_state {
        MarketState::Balanced => {
            return Err(RejectionCode::Balanced);
        },
        MarketState::Unclear => {
            return Err(RejectionCode::StructureUnclear);
        },
        MarketState::ValueUp | MarketState::ValueDown => {},
    }
    let direction = facts.location_structure.direction;
    if facts.orderflow_direction != direction || !direction_allowed(facts.market_state, direction) {
        return Err(RejectionCode::WrongDirection);
    }
    if facts.orderflow_structure != facts.location_structure || !facts.fib_levels_recalculated {
        return Err(RejectionCode::ProcessError);
    }
    if !facts.zone_outside_locked_value {
        return Err(RejectionCode::ZoneInsideValue);
    }
    match facts.location_state {
        SetupState::Terminal(TerminalState::Invalidated) => {
            return Err(RejectionCode::Fib886Invalidation);
        },
        SetupState::LocationReached => {},
        _ => {
            return Err(RejectionCode::ProcessError);
        },
    }
    if facts.orderflow_state != SetupState::FinalReconfirmation {
        return Err(RejectionCode::NoReconfirmation);
    }
    if facts.location_created_at.seconds() > facts.now_et.seconds() {
        return Err(RejectionCode::ProcessError);
    }
    let news = evaluate_news_gate(
        facts.now_et,
        Some(facts.location_created_at),
        facts.news_schedule_valid,
        facts.news_windows,
    );
    if !news.news_blackout_clear.permits() || !news.allow_new_entries {
        return Err(RejectionCode::NewsBlackout);
    }
    if !facts.first_failure_extreme_finite {
        return Err(RejectionCode::ProcessError);
    }
    if !facts.reconfirmation_extreme_finite {
        return Err(RejectionCode::NoReconfirmation);
    }
    Ok(
        StrategyValidationProof::seal(
            facts.setup_id,
            facts.owner_agent_id,
            facts.instrument,
            direction,
            facts.market_state,
        ),
    )
}

/// A validation proof is only ever issued inside the entry window, on ready data, in a
/// directional market whose direction the setup follows, after the final reconfirmation of a
/// reached, uninvalidated location, and with the news gate clear for a setup that started at or
/// after the latest ended blackout.
pub proof fn lemma_validation_requires_every_authority(f: StrategyFacts)
    requires
        strategy_check(f) is Ok,
    ensures
        in_entry_window(f.now_et),
        conjunction(f.data_readiness.conditions()) == Condition::True,
        f.market_state == MarketState::ValueUp || f.market_state == MarketState::ValueDown,
        direction_permitted(f.market_state, f.location_structure.direction),
        f.orderflow_direction == f.location_structure.direction,
        f.location_state == SetupState::LocationReached,
        f.orderflow_state == SetupState::FinalReconfirmation,
        news_gate(f.now_et, Some(f.location_created_at), f.news_schedule_valid, f.news_windows@).news_blackout_clear
            == Condition::True,
{
}

} // verus!
