//! The advisory boundary: agent roles and the LLM-side mandatory condition set.
use crate::truth::{all_conditions, conjunction, Condition};
use crate::text::{blank, is_blank};
use vstd::prelude::*;

verus! {

/// Agent roles of the trading architecture.
#[derive(Debug, Clone, Copy, PartialEq, Eq, Structural)]
pub enum AgentRole {
    DataSupervisor,
    Environment,
    Gamma,
    ProfileLocation,
    SetupCoordinator,
    OrderFlow,
    StrategyValidator,
    RiskEngine,
    ExecutionEngine,
    PositionManager,
    Audit,
}

impl AgentRole {
    /// Only the Order-Flow Agent may propose a trade.
    #[must_use]
    pub fn may_propose_trade(self) -> (r: bool)
        ensures
            r == (self == AgentRole::OrderFlow),
    {
        match self {
            AgentRole::OrderFlow => true,
            _ => false,
        }
    }

    /// No advisory output of any role may transmit an order to a broker.
    #[must_use]
    pub fn llm_may_submit_order(self) -> (r: bool)
        ensures
            !r,
    {
        false
    }
}

/// The mandatory advisory conditions, each TRUE, FALSE or UNKNOWN.
#[derive(Debug, Clone, Copy, PartialEq, Eq, Default, Structural)]
pub struct AdvisoryConditions {
    pub data_valid: Condition,
    pub market_state_valid: Condition,
    pub direction_valid: Condition,
    pub location_valid: Condition,
    pub zone_reached: Condition,
    pub not_invalidated: Condition,
    pub participation_valid: Condition,
    pub countertrend_aggression: Condition,
    pub aggression_at_extreme: Condition,
    pub effort_failed: Condition,
    pub absorption: Condition,
    pub first_dominance_shift: Condition,
    pub second_attempt: Condition,
    pub second_failure: Condition,
    pub final_reconfirmation: Condition,
    pub structural_target_valid: Condition,
    pub risk_valid: Condition,
    pub portfolio_risk_valid: Condition,
    pub duplicate_check_pass: Condition,
    pub time_valid: Condition,
}

impl AdvisoryConditions {
    /// The conditions in their fixed order.
    pub open spec fn conditions(self) -> Seq<Condition> {
        seq![
            self.data_valid,
            self.market_state_valid,
            self.direction_valid,
            self.location_valid,
            self.zone_reached,
            self.not_invalidated,
            self.participation_valid,
            self.countertrend_aggression,
            self.aggression_at_extreme,
            self.effort_failed,
            self.absorption,
            self.first_dominance_shift,
            self.second_attempt,
            self.second_failure,
            self.final_reconfirmation,
            self.structural_target_valid,
            self.risk_valid,
            self.portfolio_risk_valid,
            self.duplicate_check_pass,
            self.time_valid,
        ]
    }

    /// The advisory setup assessment: TRUE only when every condition is TRUE, FALSE when any
    /// is FALSE, otherwise UNKNOWN.
    #[must_use]
    pub fn setup_pass(self) -> (r: Condition)
        ensures
            r == conjunction(self.conditions()),
    {
        let all = [
            self.data_valid,
            self.market_state_valid,
            self.direction_valid,
            self.location_valid,
            self.zone_reached,
            self.not_invalidated,
            self.participation_valid,
            self.countertrend_aggression,
            self.aggression_at_extreme,
            self.effort_failed,
            self.absorption,
            self.first_dominance_shift,
            self.second_attempt,
            self.second_failure,
            self.final_reconfirmation,
            self.structural_target_valid,
            self.risk_valid,
            self.portfolio_risk_valid,
            self.duplicate_check_pass,
            self.time_valid,
        ];
        proof {
            assert(all@ =~= self.conditions());
        }
        all_conditions(&all)
    }
}

#[derive(Debug, Clone, Copy, PartialEq, Eq, Structural)]
pub enum AdvisoryValidationError {
    MissingIdentity,
    NonFiniteNumericValue,
    LlmAuthorityViolation,
}

/// The identity and authority checks of an advisory evaluation, in order: every identity field
/// present, then no trade authority claimed by the LLM.
pub open spec fn advisory_identity_result(
    setup_id: Seq<char>,
    agent_id: Seq<char>,
    instrument: Seq<char>,
    timestamp_et: Seq<char>,
    trade_allowed: bool,
) -> Result<(), AdvisoryValidationError> {
    if blank(setup_id) || blank(agent_id) || blank(instrument) || blank(timestamp_et) {
        Err(AdvisoryValidationError::MissingIdentity)
    } else if trade_allowed {
        Err(AdvisoryValidationError::LlmAuthorityViolation)
    } else {
        Ok(())
    }
}

/// Checks an advisory evaluation's identity and that it claims no trade authority; an
/// evaluation with `trade_allowed` set is an authority violation.
pub fn advisory_identity_check(
    setup_id: &str,
    agent_id: &str,
    instrument: &str,
    timestamp_et: &str,
    trade_allowed: bool,
) -> (r: Result<(), AdvisoryValidationError>)
    ensures
        r == advisory_identity_result(setup_id@, agent_id@, instrument@, timestamp_et@, trade_allowed),
{
    if is_blank(setup_id) || is_blank(agent_id) || is_blank(instrument) || is_blank(timestamp_et) {
        return Err(AdvisoryValidationError::MissingIdentity);
    }
    if trade_allowed {
        return Err(AdvisoryValidationError::LlmAuthorityViolation);
    }
    Ok(())
}

} // verus!
