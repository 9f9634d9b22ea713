//! Environment evaluation results and premarket plan readiness.
use crate::market::MarketState;
use crate::session::{EtTime, SESSION_OPEN_SECONDS};
use crate::text::{blank, is_blank};
use crate::truth::{all_conditions, conjunction, from_bool, Condition};
use vstd::prelude::*;

verus! {

/// The market state together with the facts it was derived from.
#[derive(Debug, Clone, Copy, PartialEq, Eq, Structural)]
pub struct EnvironmentEvaluation {
    pub market_state: MarketState,
    pub value_up_migration: Condition,
    pub value_down_migration: Condition,
    pub htf_bull_structure: Condition,
    pub htf_bear_structure: Condition,
    pub prior_value_areas_substantially_overlap: Condition,
}

/// Premarket concepts that must be established before an instrument may trade. TRUE means
/// the concept has been resolved, not that it is tradable.
#[derive(Debug, Clone, Copy, PartialEq, Eq, Default, Structural)]
pub struct PremarketPlanComponents {
    pub market_environment_established: Condition,
    pub direction_permission_established: Condition,
    pub relevant_swing_structure_established: Condition,
    pub fib_location_established: Condition,
    pub gamma_regime_established: Condition,
    pub structural_targets_established: Condition,
    pub invalidations_established: Condition,
}

impl PremarketPlanComponents {
    /// The conditions in their fixed order.
    pub open spec fn conditions(self) -> Seq<Condition> {
        seq![
            self.market_environment_established,
            self.direction_permission_established,
            self.relevant_swing_structure_established,
            self.fib_location_established,
            self.gamma_regime_established,
            self.structural_targets_established,
            self.invalidations_established,
        ]
    }

    /// Tri-state conjunction of the plan components.
    #[must_use]
    pub fn readiness(self) -> (r: Condition)
        ensures
            r == conjunction(self.conditions()),
    {
        let all = [
            self.market_environment_established,
            self.direction_permission_established,
            self.relevant_swing_structure_established,
            self.fib_location_established,
            self.gamma_regime_established,
            self.structural_targets_established,
            self.invalidations_established,
        ];
        proof {
            assert(all@ =~= self.conditions());
        }
        all_conditions(&all)
    }
}

#[derive(Debug, Clone, Copy, PartialEq, Eq, Structural)]
pub enum PremarketScenarioError {
    MissingAgentId,
    MissingInstrument,
    MissingScenarioId,
    FreezeAtOrAfterOpen,
    InvalidReferences,
    IncompletePlan,
    UnknownPlan,
}

/// How many of the values are true.
pub open spec fn count_true(s: Seq<bool>) -> nat
    decreases s.len(),
{
    if s.len() == 0 {
        0
    } else {
        count_true(s.drop_last()) + if s.last() {
            1nat
        } else {
            0nat
        }
    }
}

/// The environment decision from its comparisons. Value migrates up when at least three of the
/// four day-over-day comparisons (POC and value midpoint, day 1 over day 2 and day 2 over day 3)
/// rise, and down when at least three fall. VALUE_UP needs upward migration and a bullish hourly
/// structure, VALUE_DOWN downward migration and a bearish one; otherwise substantially
/// overlapping prior value areas make the market BALANCED, and anything else is UNCLEAR. Invalid
/// profiles or hourly structure make every fact UNKNOWN and the market UNCLEAR.
pub open spec fn environment_from(
    structures_valid: bool,
    up_comparisons: Seq<bool>,
    down_comparisons: Seq<bool>,
    hourly_bullish: bool,
    hourly_bearish: bool,
    overlap: Condition,
) -> EnvironmentEvaluation {
    if !structures_valid {
        EnvironmentEvaluation {
            market_state: MarketState::Unclear,
            value_up_migration: Condition::Unknown,
            value_down_migration: Condition::Unknown,
            htf_bull_structure: Condition::Unknown,
            htf_bear_structure: Condition::Unknown,
            prior_value_areas_substantially_overlap: overlap,
        }
    } else {
        let up = count_true(up_comparisons) >= 3;
        let down = count_true(down_comparisons) >= 3;
        EnvironmentEvaluation {
            market_state: if up && hourly_bullish {
                MarketState::ValueUp
            } else if down && hourly_bearish {
                MarketState::ValueDown
            } else if overlap == Condition::True {
                MarketState::Balanced
            } else {
                MarketState::Unclear
            },
            value_up_migration: from_bool(up),
            value_down_migration: from_bool(down),
            htf_bull_structure: from_bool(hourly_bullish),
            htf_bear_structure: from_bool(hourly_bearish),
            prior_value_areas_substantially_overlap: overlap,
        }
    }
}

/// Counting the true values of four comparisons one by one.
proof fn lemma_count_four(s: Seq<bool>)
    requires
        s.len() == 4,
    ensures
        count_true(s) == (if s[0] { 1int } else { 0 }) + (if s[1] { 1int } else { 0 }) + (if s[2] {
            1int
        } else {
            0
        }) + (if s[3] { 1int } else { 0 }),
{
    let s3 = s.drop_last();
    let s2 = s3.drop_last();
    let s1 = s2.drop_last();
    let s0 = s1.drop_last();
    assert(s0.len() == 0);
    assert(count_true(s0) == 0);
    assert(s1.last() == s[0]);
    assert(count_true(s1) == count_true(s0) + if s[0] { 1nat } else { 0nat });
    assert(s2.last() == s[1]);
    assert(count_true(s2) == count_true(s1) + if s[1] { 1nat } else { 0nat });
    assert(s3.last() == s[2]);
    assert(count_true(s3) == count_true(s2) + if s[2] { 1nat } else { 0nat });
    assert(s.last() == s[3]);
    assert(count_true(s) == count_true(s3) + if s[3] { 1nat } else { 0nat });
}

/// With valid structures, migration in a direction is TRUE exactly when at least three of its
/// four comparisons hold; VALUE_UP needs upward migration and a bullish hourly structure;
/// VALUE_DOWN needs downward migration and a bearish one, unless VALUE_UP already holds;
/// BALANCED needs neither and a TRUE overlap; everything else is UNCLEAR. Invalid structures
/// make every fact UNKNOWN and the market UNCLEAR.
pub proof fn lemma_environment_characterized(
    structures_valid: bool,
    up: Seq<bool>,
    down: Seq<bool>,
    hourly_bullish: bool,
    hourly_bearish: bool,
    overlap: Condition,
)
    requires
        up.len() == 4,
        down.len() == 4,
    ensures
        ({
            let e = environment_from(structures_valid, up, down, hourly_bullish, hourly_bearish, overlap);
            let n_up = (if up[0] { 1int } else { 0 }) + (if up[1] { 1int } else { 0 }) + (if up[2] {
                1int
            } else {
                0
            }) + (if up[3] { 1int } else { 0 });
            let n_down = (if down[0] { 1int } else { 0 }) + (if down[1] { 1int } else { 0 }) + (if down[2] {
                1int
            } else {
                0
            }) + (if down[3] { 1int } else { 0 });
            let value_up = n_up >= 3 && hourly_bullish;
            let value_down = !value_up && n_down >= 3 && hourly_bearish;
            &&& structures_valid ==> {
                &&& e.value_up_migration == (if n_up >= 3 { Condition::True } else { Condition::False })
                &&& e.value_down_migration == (if n_down >= 3 {
                    Condition::True
                } else {
                    Condition::False
                })
                &&& e.htf_bull_structure == (if hourly_bullish { Condition::True } else { Condition::False })
                &&& e.htf_bear_structure == (if hourly_bearish { Condition::True } else { Condition::False })
                &&& e.market_state == MarketState::ValueUp <==> value_up
                &&& e.market_state == MarketState::ValueDown <==> value_down
                &&& e.market_state == MarketState::Balanced <==> (!value_up && !value_down && overlap
                    == Condition::True)
            }
            &&& !structures_valid ==> {
                &&& e.market_state == MarketState::Unclear
                &&& e.value_up_migration == Condition::Unknown
                &&& e.value_down_migration == Condition::Unknown
                &&& e.htf_bull_structure == Condition::Unknown
                &&& e.htf_bear_structure == Condition::Unknown
            }
            &&& e.prior_value_areas_substantially_overlap == overlap
        }),
{
    lemma_count_four(up);
    lemma_count_four(down);
}

/// More holding comparisons never remove migration: if every falling (rising) comparison that
/// holds in one observation also holds in another, downward (upward) migration in the first
/// carries over to the second, and with the same hourly structure and no upward VALUE_UP, so
/// does VALUE_DOWN.
pub proof fn lemma_migration_monotone(
    up: Seq<bool>,
    down: Seq<bool>,
    more_up: Seq<bool>,
    more_down: Seq<bool>,
    hourly_bullish: bool,
    hourly_bearish: bool,
    overlap: Condition,
)
    requires
        up.len() == 4,
        down.len() == 4,
        more_up.len() == 4,
        more_down.len() == 4,
        forall|i: int| 0 <= i < 4 && #[trigger] up[i] ==> more_up[i],
        forall|i: int| 0 <= i < 4 && #[trigger] down[i] ==> more_down[i],
    ensures
        ({
            let a = environment_from(true, up, down, hourly_bullish, hourly_bearish, overlap);
            let b = environment_from(true, more_up, more_down, hourly_bullish, hourly_bearish, overlap);
            &&& a.value_down_migration == Condition::True ==> b.value_down_migration == Condition::True
            &&& a.value_up_migration == Condition::True ==> b.value_up_migration == Condition::True
            &&& (a.market_state == MarketState::ValueDown && b.value_up_migration != Condition::True)
                ==> b.market_state == MarketState::ValueDown
        }),
{
    lemma_count_four(up);
    lemma_count_four(down);
    lemma_count_four(more_up);
    lemma_count_four(more_down);
    assert(up[0] ==> more_up[0]);
    assert(up[1] ==> more_up[1]);
    assert(up[2] ==> more_up[2]);
    assert(up[3] ==> more_up[3]);
    assert(down[0] ==> more_down[0]);
    assert(down[1] ==> more_down[1]);
    assert(down[2] ==> more_down[2]);
    assert(down[3] ==> more_down[3]);
}

fn count_passes(values: [bool; 4]) -> (r: usize)
    ensures
        r == count_true(values@),
{
    let mut count: usize = 0;
    let mut i: usize = 0;
    while i < 4
        invariant
            i <= 4,
            count <= i,
            count == count_true(values@.take(i as int)),
        decreases 4 - i,
    {
        proof {
            assert(values@.take(i + 1).drop_last() =~= values@.take(i as int));
        }
        if values[i] {
            count = count + 1;
        }
        i = i + 1;
    }
    proof {
        assert(values@.take(4) =~= values@);
    }
    count
}

/// Classifies the environment from the validity of the three daily profiles and the hourly
/// structure, the four rising and four falling value comparisons, the hourly structure's
/// direction, and the overlap of the prior value areas.
#[must_use]
pub fn classify_environment(
    structures_valid: bool,
    up_comparisons: [bool; 4],
    down_comparisons: [bool; 4],
    hourly_bullish: bool,
    hourly_bearish: bool,
    prior_value_areas_substantially_overlap: Condition,
) -> (r: EnvironmentEvaluation)
    ensures
        r == environment_from(
            structures_valid,
            up_comparisons@,
            down_comparisons@,
            hourly_bullish,
            hourly_bearish,
            prior_value_areas_substantially_overlap,
        ),
{
    if !structures_valid {
        return EnvironmentEvaluation {
            market_state: MarketState::Unclear,
            value_up_migration: Condition::Unknown,
            value_down_migration: Condition::Unknown,
            htf_bull_structure: Condition::Unknown,
            htf_bear_structure: Condition::Unknown,
            prior_value_areas_substantially_overlap,
        };
    }
    let up = count_passes(up_comparisons) >= 3;
    let down = count_passes(down_comparisons) >= 3;
    let market_state = if up && hourly_bullish {
        MarketState::ValueUp
    } else if down && hourly_bearish {
        MarketState::ValueDown
    } else if prior_value_areas_substantially_overlap.permits() {
        MarketState::Balanced
    } else {
        MarketState::Unclear
    };
    EnvironmentEvaluation {
        market_state,
        value_up_migration: Condition::from(up),
        value_down_migration: Condition::from(down),
        htf_bull_structure: Condition::from(hourly_bullish),
        htf_bear_structure: Condition::from(hourly_bearish),
        prior_value_areas_substantially_overlap,
    }
}

/// Why a premarket scenario cannot be frozen, if it cannot: a missing agent, instrument or
/// scenario identifier, a freeze at or after the 09:30 open, invalid locked references, or a
/// plan that is incomplete (some concept FALSE) or unresolved (some concept UNKNOWN).
pub open spec fn freeze_refusal(
    agent_id: Seq<char>,
    instrument: Seq<char>,
    scenario_id: Seq<char>,
    frozen_at_et: EtTime,
    references_validity: Condition,
    components: PremarketPlanComponents,
) -> Option<PremarketScenarioError> {
    if blank(agent_id) {
        Some(PremarketScenarioError::MissingAgentId)
    } else if blank(instrument) {
        Some(PremarketScenarioError::MissingInstrument)
    } else if blank(scenario_id) {
        Some(PremarketScenarioError::MissingScenarioId)
    } else if frozen_at_et.secs() >= SESSION_OPEN_SECONDS {
        Some(PremarketScenarioError::FreezeAtOrAfterOpen)
    } else if references_validity != Condition::True {
        Some(PremarketScenarioError::InvalidReferences)
    } else if conjunction(components.conditions()) == Condition::False {
        Some(PremarketScenarioError::IncompletePlan)
    } else if conjunction(components.conditions()) == Condition::Unknown {
        Some(PremarketScenarioError::UnknownPlan)
    } else {
        None
    }
}

/// The checks that decide whether a premarket scenario may be frozen, given the structural
/// validity of its locked references.
pub fn premarket_freeze_check(
    agent_id: &str,
    instrument: &str,
    scenario_id: &str,
    frozen_at_et: EtTime,
    references_validity: Condition,
    components: PremarketPlanComponents,
) -> (r: Result<(), PremarketScenarioError>)
    ensures
        r == match freeze_refusal(
            agent_id@,
            instrument@,
            scenario_id@,
            frozen_at_et,
            references_validity,
            components,
        ) {
            Some(e) => Err(e),
            None => Ok(()),
        },
{
    if is_blank(agent_id) {
        return Err(PremarketScenarioError::MissingAgentId);
    }
    if is_blank(instrument) {
        return Err(PremarketScenarioError::MissingInstrument);
    }
    if is_blank(scenario_id) {
        return Err(PremarketScenarioError::MissingScenarioId);
    }
    if frozen_at_et.seconds() >= SESSION_OPEN_SECONDS {
        return Err(PremarketScenarioError::FreezeAtOrAfterOpen);
    }
    if !references_validity.permits() {
        return Err(PremarketScenarioError::InvalidReferences);
    }
    match components.readiness() {
        Condition::True => Ok(()),
        Condition::False => Err(PremarketScenarioError::IncompletePlan),
        Condition::Unknown => Err(PremarketScenarioError::UnknownPlan),
    }
}

/// A frozen scenario was frozen before the open, with valid references and every plan concept
/// resolved.
pub proof fn lemma_frozen_scenario_is_complete(
    agent_id: Seq<char>,
    instrument: Seq<char>,
    scenario_id: Seq<char>,
    frozen_at_et: EtTime,
    references_validity: Condition,
    components: PremarketPlanComponents,
)
    requires
        freeze_refusal(agent_id, instrument, scenario_id, frozen_at_et, references_validity, components) is None,
    ensures
        frozen_at_et.secs() < SESSION_OPEN_SECONDS,
        references_validity == Condition::True,
        conjunction(components.conditions()) == Condition::True,
        !blank(agent_id) && !blank(instrument) && !blank(scenario_id),
{
}

} // verus!
