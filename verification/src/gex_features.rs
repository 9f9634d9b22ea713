//! Deterministic feature-set vocabulary and the non-overridable hard-veto layer.
use crate::gex_strategy::DecisionVerdict;
use crate::text::{blank, is_blank, str_equal};
use vstd::prelude::*;

verus! {

#[derive(Debug, Clone, Copy, PartialEq, Eq, Structural)]
pub enum FeatureSetError {
    MissingSnapshotId,
    SnapshotMismatch,
    NonFiniteFeature,
}

/// EMA-stack state, an explanatory feature rather than a universal veto.
#[derive(Debug, Clone, Copy, PartialEq, Eq, Structural)]
pub enum EmaStackState {
    Bullish,
    Bearish,
    Mixed,
    Unknown,
}

#[derive(Debug, Clone, Copy, PartialEq, Eq, Structural)]
pub enum EmaStackError {
    NonFiniteValue,
}

/// The mandatory hard conditions, in their fixed evaluation order.
#[derive(Debug, Clone, Copy, PartialEq, Eq, Structural)]
pub enum HardConditionKind {
    DataValid,
    DataFresh,
    GexScopeValid,
    RequiredRegimeDataValid,
    BrokerConnected,
    OrderStateValid,
    InstrumentTradable,
    LiquidityWithinLimits,
    MaxPositionRiskValid,
    MaxPortfolioRiskValid,
    InvalidationDefined,
    ExecutionCostWithinLimits,
    KillSwitchClear,
}

#[derive(Debug, Clone, Copy, PartialEq, Eq, Structural)]
pub enum HardCondition {
    Pass,
    Fail,
    Unknown,
}

#[derive(Debug, Clone, PartialEq, Eq)]
pub struct HardVetoInput {
    pub snapshot_id: String,
    pub data_valid: HardCondition,
    pub data_fresh: HardCondition,
    pub gex_scope_valid: HardCondition,
    pub required_regime_data_valid: HardCondition,
    pub broker_connected: HardCondition,
    pub order_state_valid: HardCondition,
    pub instrument_tradable: HardCondition,
    pub liquidity_within_limits: HardCondition,
    pub max_position_risk_valid: HardCondition,
    pub max_portfolio_risk_valid: HardCondition,
    pub invalidation_defined: HardCondition,
    pub execution_cost_within_limits: HardCondition,
    pub kill_switch_clear: HardCondition,
}

#[derive(Debug, Clone, Copy, PartialEq, Eq, Structural)]
pub enum HardVetoError {
    MissingSnapshotId,
    SnapshotMismatch,
}

#[derive(Debug, Clone, Copy, PartialEq, Eq, Structural)]
pub enum HardVetoVerdict {
    Cleared,
    Wait,
    Reject,
}

/// Observable content of a hard-veto result.
pub struct HardVetoView {
    pub snapshot_id: Seq<char>,
    pub verdict: HardVetoVerdict,
    pub failed_conditions: Seq<HardConditionKind>,
    pub unknown_conditions: Seq<HardConditionKind>,
}

#[derive(Debug, Clone, PartialEq, Eq)]
pub struct HardVetoResult {
    snapshot_id: String,
    verdict: HardVetoVerdict,
    failed_conditions: Vec<HardConditionKind>,
    unknown_conditions: Vec<HardConditionKind>,
}

impl View for HardVetoResult {
    type V = HardVetoView;

    closed spec fn view(&self) -> HardVetoView {
        HardVetoView {
            snapshot_id: self.snapshot_id@,
            verdict: self.verdict,
            failed_conditions: self.failed_conditions@,
            unknown_conditions: self.unknown_conditions@,
        }
    }
}

/// What a hard-veto verdict means for the final decision.
pub open spec fn blocking(verdict: HardVetoVerdict) -> Option<DecisionVerdict> {
    match verdict {
        HardVetoVerdict::Cleared => None,
        HardVetoVerdict::Wait => Some(DecisionVerdict::Wait),
        HardVetoVerdict::Reject => Some(DecisionVerdict::Reject),
    }
}

impl HardVetoResult {
    #[must_use]
    pub fn snapshot_id(&self) -> (r: &str)
        ensures
            r@ == self@.snapshot_id,
    {
        self.snapshot_id.as_str()
    }

    #[must_use]
    pub fn verdict(&self) -> (r: HardVetoVerdict)
        ensures
            r == self@.verdict,
    {
        self.verdict
    }

    #[must_use]
    pub fn failed_conditions(&self) -> (r: &[HardConditionKind])
        ensures
            r@ == self@.failed_conditions,
    {
        self.failed_conditions.as_slice()
    }

    #[must_use]
    pub fn unknown_conditions(&self) -> (r: &[HardConditionKind])
        ensures
            r@ == self@.unknown_conditions,
    {
        self.unknown_conditions.as_slice()
    }

    /// A cleared hard-veto layer is not an allow: downstream authority is still required.
    #[must_use]
    pub fn blocking_decision(&self) -> (r: Option<DecisionVerdict>)
        ensures
            r == blocking(self@.verdict),
            r != Some(DecisionVerdict::Allow),
    {
        match self.verdict {
            HardVetoVerdict::Cleared => None,
            HardVetoVerdict::Wait => Some(DecisionVerdict::Wait),
            HardVetoVerdict::Reject => Some(DecisionVerdict::Reject),
        }
    }
}

/// The hard conditions of an input, paired with their kinds, in the fixed order.
pub open spec fn hard_conditions(input: &HardVetoInput) -> Seq<(HardConditionKind, HardCondition)> {
    seq![
        (HardConditionKind::DataValid, input.data_valid),
        (HardConditionKind::DataFresh, input.data_fresh),
        (HardConditionKind::GexScopeValid, input.gex_scope_valid),
        (HardConditionKind::RequiredRegimeDataValid, input.required_regime_data_valid),
        (HardConditionKind::BrokerConnected, input.broker_connected),
        (HardConditionKind::OrderStateValid, input.order_state_valid),
        (HardConditionKind::InstrumentTradable, input.instrument_tradable),
        (HardConditionKind::LiquidityWithinLimits, input.liquidity_within_limits),
        (HardConditionKind::MaxPositionRiskValid, input.max_position_risk_valid),
        (HardConditionKind::MaxPortfolioRiskValid, input.max_portfolio_risk_valid),
        (HardConditionKind::InvalidationDefined, input.invalidation_defined),
        (HardConditionKind::ExecutionCostWithinLimits, input.execution_cost_within_limits),
        (HardConditionKind::KillSwitchClear, input.kill_switch_clear),
    ]
}

/// The kinds whose condition is `c`, in order.
pub open spec fn kinds_with(s: Seq<(HardConditionKind, HardCondition)>, c: HardCondition) -> Seq<
    HardConditionKind,
>
    decreases s.len(),
{
    if s.len() == 0 {
        Seq::empty()
    } else {
        kinds_with(s.drop_last(), c) + if s.last().1 == c {
            seq![s.last().0]
        } else {
            Seq::empty()
        }
    }
}

/// FAIL has precedence over UNKNOWN; UNKNOWN means WAIT only when nothing failed.
pub open spec fn veto_verdict(failed: Seq<HardConditionKind>, unknown: Seq<HardConditionKind>) -> HardVetoVerdict {
    if failed.len() > 0 {
        HardVetoVerdict::Reject
    } else if unknown.len() > 0 {
        HardVetoVerdict::Wait
    } else {
        HardVetoVerdict::Cleared
    }
}

/// The outcome of evaluating hard vetoes for the snapshot identified by `snapshot_id`.
pub open spec fn hard_veto_result(snapshot_id: Seq<char>, input: &HardVetoInput) -> Result<
    HardVetoView,
    HardVetoError,
> {
    if blank(input.snapshot_id@) {
        Err(HardVetoError::MissingSnapshotId)
    } else if input.snapshot_id@ != snapshot_id {
        Err(HardVetoError::SnapshotMismatch)
    } else {
        let failed = kinds_with(hard_conditions(input), HardCondition::Fail);
        let unknown = kinds_with(hard_conditions(input), HardCondition::Unknown);
        Ok(
            HardVetoView {
                snapshot_id: input.snapshot_id@,
                verdict: veto_verdict(failed, unknown),
                failed_conditions: failed,
                unknown_conditions: unknown,
            },
        )
    }
}

/// Evaluates the mandatory hard conditions of an input bound to the snapshot whose
/// identifier is `snapshot_id`.
pub fn evaluate_hard_vetoes_for(snapshot_id: &str, input: &HardVetoInput) -> (r: Result<
    HardVetoResult,
    HardVetoError,
>)
    ensures
        match hard_veto_result(snapshot_id@, input) {
            Ok(v) => r is Ok && r.unwrap()@ == v,
            Err(e) => r == Err::<HardVetoResult, HardVetoError>(e),
        },
{
    if is_blank(input.snapshot_id.as_str()) {
        return Err(HardVetoError::MissingSnapshotId);
    }
    if !str_equal(input.snapshot_id.as_str(), snapshot_id) {
        return Err(HardVetoError::SnapshotMismatch);
    }
    let conditions = [
        (HardConditionKind::DataValid, input.data_valid),
        (HardConditionKind::DataFresh, input.data_fresh),
        (HardConditionKind::GexScopeValid, input.gex_scope_valid),
        (HardConditionKind::RequiredRegimeDataValid, input.required_regime_data_valid),
        (HardConditionKind::BrokerConnected, input.broker_connected),
        (HardConditionKind::OrderStateValid, input.order_state_valid),
        (HardConditionKind::InstrumentTradable, input.instrument_tradable),
        (HardConditionKind::LiquidityWithinLimits, input.liquidity_within_limits),
        (HardConditionKind::MaxPositionRiskValid, input.max_position_risk_valid),
        (HardConditionKind::MaxPortfolioRiskValid, input.max_portfolio_risk_valid),
        (HardConditionKind::InvalidationDefined, input.invalidation_defined),
        (HardConditionKind::ExecutionCostWithinLimits, input.execution_cost_within_limits),
        (HardConditionKind::KillSwitchClear, input.kill_switch_clear),
    ];
    let ghost all = hard_conditions(input);
    proof {
        assert(conditions@ =~= all);
    }
    let mut failed_conditions: Vec<HardConditionKind> = Vec::new();
    let mut unknown_conditions: Vec<HardConditionKind> = Vec::new();
    let mut i: usize = 0;
    while i < conditions.len()
        invariant
            i <= conditions@.len(),
            conditions@ == all,
            failed_conditions@ == kinds_with(all.take(i as int), HardCondition::Fail),
            unknown_conditions@ == kinds_with(all.take(i as int), HardCondition::Unknown),
        decreases conditions@.len() - i,
    {
        proof {
            assert(all.take(i + 1).drop_last() =~= all.take(i as int));
            assert(all.take(i + 1).last() == all[i as int]);
        }
        let (kind, condition) = conditions[i];
        match condition {
            HardCondition::Pass => {
                proof {
                    assert(failed_conditions@ =~= kinds_with(all.take(i + 1), HardCondition::Fail));
                    assert(unknown_conditions@ =~= kinds_with(all.take(i + 1), HardCondition::Unknown));
                }
            },
            HardCondition::Fail => {
                failed_conditions.push(kind);
                proof {
                    assert(failed_conditions@ =~= kinds_with(all.take(i + 1), HardCondition::Fail));
                    assert(unknown_conditions@ =~= kinds_with(all.take(i + 1), HardCondition::Unknown));
                }
            },
            HardCondition::Unknown => {
                unknown_conditions.push(kind);
                proof {
                    assert(failed_conditions@ =~= kinds_with(all.take(i + 1), HardCondition::Fail));
                    assert(unknown_conditions@ =~= kinds_with(all.take(i + 1), HardCondition::Unknown));
                }
            },
        }
        i = i + 1;
    }
    proof {
        assert(all.take(conditions@.len() as int) =~= all);
    }
    let verdict = if failed_conditions.len() > 0 {
        HardVetoVerdict::Reject
    } else if unknown_conditions.len() > 0 {
        HardVetoVerdict::Wait
    } else {
        HardVetoVerdict::Cleared
    };
    Ok(
        HardVetoResult {
            snapshot_id: input.snapshot_id.clone(),
            verdict,
            failed_conditions,
            unknown_conditions,
        },
    )
}

/// A kind is listed among the failed (unknown) conditions exactly when its condition is FAIL
/// (UNKNOWN).
pub proof fn lemma_kinds_with_members(s: Seq<(HardConditionKind, HardCondition)>, c: HardCondition, k: HardConditionKind)
    ensures
        kinds_with(s, c).contains(k) <==> exists|i: int| 0 <= i < s.len() && (#[trigger] s[i]) == (k, c),
    decreases s.len(),
{
    if s.len() > 0 {
        let init = s.drop_last();
        lemma_kinds_with_members(init, c, k);
        let tail: Seq<HardConditionKind> = if s.last().1 == c { seq![s.last().0] } else { Seq::empty() };
        assert(kinds_with(s, c) == kinds_with(init, c) + tail);
        if kinds_with(s, c).contains(k) {
            let j = choose|j: int| 0 <= j < kinds_with(s, c).len() && kinds_with(s, c)[j] == k;
            if j < kinds_with(init, c).len() {
                assert(kinds_with(init, c)[j] == k);
                let i = choose|i: int| 0 <= i < init.len() && (#[trigger] init[i]) == (k, c);
                assert(s[i] == init[i]);
            } else {
                assert(s[s.len() - 1] == (k, c));
            }
        }
        if exists|i: int| 0 <= i < s.len() && (#[trigger] s[i]) == (k, c) {
            let i = choose|i: int| 0 <= i < s.len() && (#[trigger] s[i]) == (k, c);
            if i < s.len() - 1 {
                assert(init[i] == s[i]);
                let j = choose|j: int| 0 <= j < kinds_with(init, c).len() && kinds_with(init, c)[j] == k;
                assert(kinds_with(s, c)[j] == k);
            } else {
                assert(kinds_with(s, c)[kinds_with(init, c).len() as int] == k);
            }
        }
    }
}

/// A result is cleared only when every hard condition passes; any failure rejects, whatever
/// else is unknown.
pub proof fn lemma_veto_fail_closed(snapshot_id: Seq<char>, input: &HardVetoInput)
    requires
        hard_veto_result(snapshot_id, input) is Ok,
    ensures
        hard_veto_result(snapshot_id, input).unwrap().verdict == HardVetoVerdict::Cleared <==> (
        forall|i: int| 0 <= i < 13 ==> (#[trigger] hard_conditions(input)[i]).1 == HardCondition::Pass),
        (exists|i: int| 0 <= i < 13 && (#[trigger] hard_conditions(input)[i]).1 == HardCondition::Fail)
            ==> hard_veto_result(snapshot_id, input).unwrap().verdict == HardVetoVerdict::Reject,
{
    let s = hard_conditions(input);
    assert(s.len() == 13);
    if exists|i: int| 0 <= i < 13 && (#[trigger] s[i]).1 == HardCondition::Fail {
        let i = choose|i: int| 0 <= i < 13 && (#[trigger] s[i]).1 == HardCondition::Fail;
        lemma_kinds_with_members(s, HardCondition::Fail, s[i].0);
        assert(s[i] == (s[i].0, HardCondition::Fail));
    }
    if exists|i: int| 0 <= i < 13 && (#[trigger] s[i]).1 == HardCondition::Unknown {
        let i = choose|i: int| 0 <= i < 13 && (#[trigger] s[i]).1 == HardCondition::Unknown;
        lemma_kinds_with_members(s, HardCondition::Unknown, s[i].0);
        assert(s[i] == (s[i].0, HardCondition::Unknown));
    }
    if forall|i: int| 0 <= i < 13 ==> (#[trigger] s[i]).1 == HardCondition::Pass {
        if kinds_with(s, HardCondition::Fail).len() > 0 {
            let k = kinds_with(s, HardCondition::Fail)[0];
            lemma_kinds_with_members(s, HardCondition::Fail, k);
            assert(kinds_with(s, HardCondition::Fail).contains(k));
        }
        if kinds_with(s, HardCondition::Unknown).len() > 0 {
            let k = kinds_with(s, HardCondition::Unknown)[0];
            lemma_kinds_with_members(s, HardCondition::Unknown, k);
            assert(kinds_with(s, HardCondition::Unknown).contains(k));
        }
    }
}

/// The verdict is decided by the hard conditions alone: REJECT exactly when some condition is
/// FAIL, WAIT exactly when none is FAIL and some is UNKNOWN, CLEARED exactly when all PASS. The
/// failed and unknown lists name exactly the conditions that are FAIL and UNKNOWN.
pub proof fn lemma_veto_verdict_characterized(snapshot_id: Seq<char>, input: &HardVetoInput)
    requires
        hard_veto_result(snapshot_id, input) is Ok,
    ensures
        ({
            let v = hard_veto_result(snapshot_id, input).unwrap();
            let s = hard_conditions(input);
            let some_fail = exists|i: int| 0 <= i < 13 && (#[trigger] s[i]).1 == HardCondition::Fail;
            let some_unknown = exists|i: int|
                0 <= i < 13 && (#[trigger] s[i]).1 == HardCondition::Unknown;
            &&& v.verdict == HardVetoVerdict::Reject <==> some_fail
            &&& v.verdict == HardVetoVerdict::Wait <==> (!some_fail && some_unknown)
            &&& v.verdict == HardVetoVerdict::Cleared <==> (!some_fail && !some_unknown)
            &&& forall|k: HardConditionKind| #[trigger] v.failed_conditions.contains(k) <==> (exists|
                i: int,
            | 0 <= i < 13 && (#[trigger] s[i]) == (k, HardCondition::Fail))
            &&& forall|k: HardConditionKind| #[trigger] v.unknown_conditions.contains(k) <==> (exists|
                i: int,
            | 0 <= i < 13 && (#[trigger] s[i]) == (k, HardCondition::Unknown))
        }),
{
    let s = hard_conditions(input);
    assert(s.len() == 13);
    let failed = kinds_with(s, HardCondition::Fail);
    let unknown = kinds_with(s, HardCondition::Unknown);
    assert forall|k: HardConditionKind| #[trigger] failed.contains(k) <==> (exists|i: int|
        0 <= i < 13 && (#[trigger] s[i]) == (k, HardCondition::Fail)) by {
        lemma_kinds_with_members(s, HardCondition::Fail, k);
    }
    assert forall|k: HardConditionKind| #[trigger] unknown.contains(k) <==> (exists|i: int|
        0 <= i < 13 && (#[trigger] s[i]) == (k, HardCondition::Unknown)) by {
        lemma_kinds_with_members(s, HardCondition::Unknown, k);
    }
    if exists|i: int| 0 <= i < 13 && (#[trigger] s[i]).1 == HardCondition::Fail {
        let i = choose|i: int| 0 <= i < 13 && (#[trigger] s[i]).1 == HardCondition::Fail;
        assert(s[i] == (s[i].0, HardCondition::Fail));
        assert(failed.contains(s[i].0));
    } else if failed.len() > 0 {
        assert(failed.contains(failed[0]));
        let i = choose|i: int| 0 <= i < 13 && (#[trigger] s[i]) == (failed[0], HardCondition::Fail);
        assert(s[i].1 == HardCondition::Fail);
    }
    if exists|i: int| 0 <= i < 13 && (#[trigger] s[i]).1 == HardCondition::Unknown {
        let i = choose|i: int| 0 <= i < 13 && (#[trigger] s[i]).1 == HardCondition::Unknown;
        assert(s[i] == (s[i].0, HardCondition::Unknown));
        assert(unknown.contains(s[i].0));
    } else if unknown.len() > 0 {
        assert(unknown.contains(unknown[0]));
        let i = choose|i: int| 0 <= i < 13 && (#[trigger] s[i]) == (unknown[0], HardCondition::Unknown);
        assert(s[i].1 == HardCondition::Unknown);
    }
}

/// A feature set is bound to its snapshot: its identifier must be present and equal to the
/// snapshot's.
pub fn feature_identity_check(input_snapshot_id: &str, snapshot_id: &str) -> (r: Result<
    (),
    FeatureSetError,
>)
    ensures
        r == (if blank(input_snapshot_id@) {
            Err(FeatureSetError::MissingSnapshotId)
        } else if input_snapshot_id@ != snapshot_id@ {
            Err(FeatureSetError::SnapshotMismatch)
        } else {
            Ok(())
        }),
{
    if is_blank(input_snapshot_id) {
        return Err(FeatureSetError::MissingSnapshotId);
    }
    if !str_equal(input_snapshot_id, snapshot_id) {
        return Err(FeatureSetError::SnapshotMismatch);
    }
    Ok(())
}

} // verus!
