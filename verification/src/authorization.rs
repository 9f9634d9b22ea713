//! The authority chain: every production condition and every deterministic authority must
//! be TRUE before a trade is authorized.
use crate::truth::Condition;
use vstd::prelude::*;

verus! {

/// Union of mandatory production conditions, each TRUE, FALSE or UNKNOWN.
#[derive(Debug, Clone, Copy, PartialEq, Eq, Structural)]
pub struct ProductionConditions {
    pub time_valid: Condition,
    pub data_valid: Condition,
    pub premarket_plan_complete: Condition,
    pub environment_valid: Condition,
    pub direction_valid: Condition,
    pub qualified_swing_exists: Condition,
    pub fib_zone_valid: Condition,
    pub fib_zone_outside_value: Condition,
    pub location_reached: Condition,
    pub fib_886_valid: Condition,
    pub participation_valid: Condition,
    pub countertrend_aggression: Condition,
    pub aggression_at_extreme: Condition,
    pub effort_failed: Condition,
    pub absorption_present: Condition,
    pub first_dominance_shift: Condition,
    pub second_attempt_present: Condition,
    pub second_attempt_has_countertrend_aggression: Condition,
    pub second_failure_structure_valid: Condition,
    pub second_failure_valid: Condition,
    pub final_reconfirmation: Condition,
    pub structural_target_valid: Condition,
    pub per_trade_risk_valid: Condition,
    pub portfolio_risk_valid: Condition,
    pub correlation_risk_valid: Condition,
    pub setup_not_duplicated: Condition,
    pub no_conflicting_order: Condition,
    pub news_blackout_clear: Condition,
    pub broker_safe: Condition,
    pub execution_engine_safe: Condition,
}

impl ProductionConditions {
    /// Every condition is TRUE.
    pub open spec fn every_true(self) -> bool {
        &&& self.time_valid == Condition::True
        &&& self.data_valid == Condition::True
        &&& self.premarket_plan_complete == Condition::True
        &&& self.environment_valid == Condition::True
        &&& self.direction_valid == Condition::True
        &&& self.qualified_swing_exists == Condition::True
        &&& self.fib_zone_valid == Condition::True
        &&& self.fib_zone_outside_value == Condition::True
        &&& self.location_reached == Condition::True
        &&& self.fib_886_valid == Condition::True
        &&& self.participation_valid == Condition::True
        &&& self.countertrend_aggression == Condition::True
        &&& self.aggression_at_extreme == Condition::True
        &&& self.effort_failed == Condition::True
        &&& self.absorption_present == Condition::True
        &&& self.first_dominance_shift == Condition::True
        &&& self.second_attempt_present == Condition::True
        &&& self.second_attempt_has_countertrend_aggression == Condition::True
        &&& self.second_failure_structure_valid == Condition::True
        &&& self.second_failure_valid == Condition::True
        &&& self.final_reconfirmation == Condition::True
        &&& self.structural_target_valid == Condition::True
        &&& self.per_trade_risk_valid == Condition::True
        &&& self.portfolio_risk_valid == Condition::True
        &&& self.correlation_risk_valid == Condition::True
        &&& self.setup_not_duplicated == Condition::True
        &&& self.no_conflicting_order == Condition::True
        &&& self.news_blackout_clear == Condition::True
        &&& self.broker_safe == Condition::True
        &&& self.execution_engine_safe == Condition::True
    }

    /// Whether every condition is TRUE; FALSE and UNKNOWN both fail.
    #[must_use]
    pub fn all_true(self) -> (r: bool)
        ensures
            r == self.every_true(),
    {
        self.time_valid.permits()
            && self.data_valid.permits()
            && self.premarket_plan_complete.permits()
            && self.environment_valid.permits()
            && self.direction_valid.permits()
            && self.qualified_swing_exists.permits()
            && self.fib_zone_valid.permits()
            && self.fib_zone_outside_value.permits()
            && self.location_reached.permits()
            && self.fib_886_valid.permits()
            && self.participation_valid.permits()
            && self.countertrend_aggression.permits()
            && self.aggression_at_extreme.permits()
            && self.effort_failed.permits()
            && self.absorption_present.permits()
            && self.first_dominance_shift.permits()
            && self.second_attempt_present.permits()
            && self.second_attempt_has_countertrend_aggression.permits()
            && self.second_failure_structure_valid.permits()
            && self.second_failure_valid.permits()
            && self.final_reconfirmation.permits()
            && self.structural_target_valid.permits()
            && self.per_trade_risk_valid.permits()
            && self.portfolio_risk_valid.permits()
            && self.correlation_risk_valid.permits()
            && self.setup_not_duplicated.permits()
            && self.no_conflicting_order.permits()
            && self.news_blackout_clear.permits()
            && self.broker_safe.permits()
            && self.execution_engine_safe.permits()
    }
}

/// The authority chain: the advisory assessment and each deterministic subsystem.
#[derive(Debug, Clone, Copy, PartialEq, Eq, Structural)]
pub struct AuthorizationInputs {
    pub llm_setup_pass: Condition,
    pub strategy_validator_pass: Condition,
    pub risk_engine_pass: Condition,
    pub portfolio_coordinator_pass: Condition,
    pub execution_gate_pass: Condition,
}

impl AuthorizationInputs {
    /// Every condition is TRUE.
    pub open spec fn every_true(self) -> bool {
        &&& self.llm_setup_pass == Condition::True
        &&& self.strategy_validator_pass == Condition::True
        &&& self.risk_engine_pass == Condition::True
        &&& self.portfolio_coordinator_pass == Condition::True
        &&& self.execution_gate_pass == Condition::True
    }

    /// Whether every condition is TRUE; FALSE and UNKNOWN both fail.
    #[must_use]
    pub fn all_true(self) -> (r: bool)
        ensures
            r == self.every_true(),
    {
        self.llm_setup_pass.permits()
            && self.strategy_validator_pass.permits()
            && self.risk_engine_pass.permits()
            && self.portfolio_coordinator_pass.permits()
            && self.execution_gate_pass.permits()
    }
}

/// A trade is authorized only when every production condition and every authority is TRUE.
/// There is intentionally no trade-count or consecutive-loss input.
#[must_use]
pub fn trade_authorized(conditions: ProductionConditions, authority: AuthorizationInputs) -> (r:
    bool)
    ensures
        r == (conditions.every_true() && authority.every_true()),
{
    conditions.all_true() && authority.all_true()
}

} // verus!
