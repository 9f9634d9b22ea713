//! The deterministic decisions of the live execution path: the execution gate, the
//! transmission checks, fill and protection handling, pending-entry expiry, and open-position
//! safety. Broker calls are made by the caller between the steps; each step receives what the
//! broker answered and decides.
use crate::broker_execution::{
    BrokerCapabilities, BrokerReconciliation, BrokerSubmission, ExecutionGateContext,
    ExecutionStatus, SetupRegistryStatus,
};
use crate::order_risk::trigger_expired;
use crate::rejection::RejectionCode;
use crate::safety::{agent_allowed, OperationalSafetyController};
use crate::session::{in_entry_window, SessionPermissions};
use crate::setup_registry::{
    fill_result, lemma_registry_progress, missed_result, pending_order_result,
    position_management_result, RecordView, registry_progress, registry_step, reserve_result,
    SetupRegistry, with_fill, with_missed, with_pending_order, with_position_management,
};
use crate::setup_state::SetupState;
use crate::text::{blank, contains_text, is_blank, str_equal, texts};
use crate::truth::{conjunction, Condition};
use vstd::prelude::*;

verus! {

/// Observable content of a proposal's authority.
pub struct ProposalAuthorityView {
    pub setup_id: Seq<char>,
    pub owner_agent_id: Seq<char>,
    pub instrument: Seq<char>,
    pub strategy_pass: Condition,
    pub risk_pass: Condition,
    pub portfolio_pass: Condition,
    pub execution_pass: Condition,
}

/// Identity and authority conditions of an order proposal. Only the execution gate turns the
/// execution pass TRUE.
#[derive(Debug, Clone, PartialEq, Eq)]
pub struct ProposalAuthority {
    setup_id: String,
    owner_agent_id: String,
    instrument: String,
    strategy_pass: Condition,
    risk_pass: Condition,
    portfolio_pass: Condition,
    execution_pass: Condition,
}

impl View for ProposalAuthority {
    type V = ProposalAuthorityView;

    closed spec fn view(&self) -> ProposalAuthorityView {
        ProposalAuthorityView {
            setup_id: self.setup_id@,
            owner_agent_id: self.owner_agent_id@,
            instrument: self.instrument@,
            strategy_pass: self.strategy_pass,
            risk_pass: self.risk_pass,
            portfolio_pass: self.portfolio_pass,
            execution_pass: self.execution_pass,
        }
    }
}

impl ProposalAuthority {
    /// A pre-broker proposal: strategy, risk and portfolio passed, execution still UNKNOWN.
    pub fn pre_broker(setup_id: &str, owner_agent_id: &str, instrument: &str) -> (r: Self)
        ensures
            r@.setup_id == setup_id@,
            r@.owner_agent_id == owner_agent_id@,
            r@.instrument == instrument@,
            r@.strategy_pass == Condition::True,
            r@.risk_pass == Condition::True,
            r@.portfolio_pass == Condition::True,
            r@.execution_pass == Condition::Unknown,
    {
        ProposalAuthority {
            setup_id: setup_id.to_owned(),
            owner_agent_id: owner_agent_id.to_owned(),
            instrument: instrument.to_owned(),
            strategy_pass: Condition::True,
            risk_pass: Condition::True,
            portfolio_pass: Condition::True,
            execution_pass: Condition::Unknown,
        }
    }

    #[must_use]
    pub fn setup_id(&self) -> (r: &str)
        ensures
            r@ == self@.setup_id,
    {
        self.setup_id.as_str()
    }

    #[must_use]
    pub fn owner_agent_id(&self) -> (r: &str)
        ensures
            r@ == self@.owner_agent_id,
    {
        self.owner_agent_id.as_str()
    }

    #[must_use]
    pub fn instrument(&self) -> (r: &str)
        ensures
            r@ == self@.instrument,
    {
        self.instrument.as_str()
    }

    #[must_use]
    pub fn strategy_pass(&self) -> (r: Condition)
        ensures
            r == self@.strategy_pass,
    {
        self.strategy_pass
    }

    #[must_use]
    pub fn risk_pass(&self) -> (r: Condition)
        ensures
            r == self@.risk_pass,
    {
        self.risk_pass
    }

    #[must_use]
    pub fn portfolio_pass(&self) -> (r: Condition)
        ensures
            r == self@.portfolio_pass,
    {
        self.portfolio_pass
    }

    #[must_use]
    pub fn execution_pass(&self) -> (r: Condition)
        ensures
            r == self@.execution_pass,
    {
        self.execution_pass
    }

    /// The gated copy of a proposal: identical except that the execution pass is TRUE.
    pub fn gated(&self) -> (r: Self)
        ensures
            r@ == (ProposalAuthorityView { execution_pass: Condition::True, ..self@ }),
    {
        ProposalAuthority {
            setup_id: self.setup_id.clone(),
            owner_agent_id: self.owner_agent_id.clone(),
            instrument: self.instrument.clone(),
            strategy_pass: self.strategy_pass,
            risk_pass: self.risk_pass,
            portfolio_pass: self.portfolio_pass,
            execution_pass: Condition::True,
        }
    }
}

/// What follows an accepted transmission or a confirmed fill.
#[derive(Debug, Clone, PartialEq, Eq)]
pub enum EntryProgress {
    /// The entry order rests at the broker.
    Pending { broker_order_id: String },
    /// The entry filled; its protective stop must be confirmed next.
    AwaitingProtection { broker_order_id: String },
}

/// What follows the protective-stop check.
#[derive(Debug, Clone, PartialEq, Eq)]
pub enum ProtectionDecision {
    /// The stop is confirmed and the position is under management.
    Protected { broker_order_id: String },
    /// The stop is not confirmed: the instrument must be flattened and the engine is unsafe.
    FlattenInstrument { instrument: String },
}

/// What to do with a resting entry order.
#[derive(Debug, Clone, Copy, PartialEq, Eq, Structural)]
pub enum PendingEntryAction {
    KeepPending,
    Cancel,
}

/// Observable state of the execution core.
pub struct ExecutionCoreView<G> {
    pub registry: Map<Seq<char>, RecordView<G>>,
    pub engine_safe: bool,
}

/// Setup registry and the shared execution-engine safety latch.
#[derive(Debug)]
pub struct ExecutionCore<G> {
    registry: SetupRegistry<G>,
    engine_safe: bool,
}

impl<G> View for ExecutionCore<G> {
    type V = ExecutionCoreView<G>;

    closed spec fn view(&self) -> ExecutionCoreView<G> {
        ExecutionCoreView { registry: self.registry@, engine_safe: self.engine_safe }
    }
}

/// Execution-gate checks that need no broker answer, in order.
pub open spec fn gate_preflight_result(
    engine_safe: bool,
    safety: crate::safety::SafetyView,
    proposal: ProposalAuthorityView,
    agent: Seq<char>,
    llm_setup_pass: Condition,
    now: crate::session::EtTime,
) -> Result<(), RejectionCode> {
    if !engine_safe {
        Err(RejectionCode::BrokerUnsafe)
    } else if blank(agent) {
        Err(RejectionCode::ProcessError)
    } else if !in_entry_window(now) {
        Err(RejectionCode::TimeCutoff)
    } else if llm_setup_pass != Condition::True {
        Err(RejectionCode::ProcessError)
    } else if agent_allowed(safety, agent) != Condition::True {
        Err(RejectionCode::ProcessError)
    } else if proposal.execution_pass != Condition::Unknown || proposal.strategy_pass
        != Condition::True {
        Err(RejectionCode::ProcessError)
    } else if proposal.risk_pass != Condition::True {
        Err(RejectionCode::RiskRejected)
    } else if proposal.portfolio_pass != Condition::True {
        Err(RejectionCode::PortfolioRiskRejected)
    } else if proposal.owner_agent_id != agent {
        Err(RejectionCode::DuplicateSetup)
    } else {
        Ok(())
    }
}

/// The broker-state checks shared by entry authorization and transmission: a safe broker, no
/// conflicting order, and no open order or position for the setup.
pub open spec fn reconciliation_result(recon: &BrokerReconciliation, setup_id: Seq<char>) -> Result<
    (),
    RejectionCode,
> {
    if conjunction(recon.safety_facts()) != Condition::True {
        Err(RejectionCode::BrokerUnsafe)
    } else if recon.no_conflicting_order != Condition::True {
        Err(RejectionCode::ProcessError)
    } else if recon.setup_clear_result(setup_id) != Condition::True {
        Err(RejectionCode::DuplicateSetup)
    } else {
        Ok(())
    }
}

/// Execution-gate checks that follow reconciliation, before the reservation.
pub open spec fn gate_commit_result<G>(
    registry: Map<Seq<char>, RecordView<G>>,
    proposal: ProposalAuthorityView,
    agent: Seq<char>,
    recon: &BrokerReconciliation,
) -> Result<(), RejectionCode> {
    match reconciliation_result(recon, proposal.setup_id) {
        Err(e) => Err(e),
        Ok(_) => if !registry.dom().contains(proposal.setup_id) {
            Err(RejectionCode::ProcessError)
        } else if registry[proposal.setup_id].owner_agent_id != agent
            || registry[proposal.setup_id].owner_agent_id != proposal.owner_agent_id
            || registry[proposal.setup_id].consumed
            || registry[proposal.setup_id].order_active_or_reserved {
            Err(RejectionCode::DuplicateSetup)
        } else {
            reserve_result(registry, proposal.setup_id, agent, proposal.setup_id, proposal.instrument)
        },
    }
}

/// A reservation is intact when the setup is reserved, unconsumed, untransmitted,
/// entry-authorized, bound to the proposal's instrument, and carries the proposal's guard.
pub open spec fn reservation_intact<G>(
    registry: Map<Seq<char>, RecordView<G>>,
    proposal: ProposalAuthorityView,
    guard_matches: bool,
) -> bool {
    &&& registry.dom().contains(proposal.setup_id)
    &&& registry[proposal.setup_id].order_active_or_reserved
    &&& !registry[proposal.setup_id].consumed
    &&& registry[proposal.setup_id].broker_order_id is None
    &&& registry[proposal.setup_id].instrument == Some(proposal.instrument)
    &&& registry[proposal.setup_id].state == Some(SetupState::EntryAuthorized)
    &&& guard_matches
}

/// The registry after an untransmitted reservation is cleared.
pub open spec fn cleared<G>(registry: Map<Seq<char>, RecordView<G>>, setup_id: Seq<char>) -> Map<
    Seq<char>,
    RecordView<G>,
> {
    if !registry.dom().contains(setup_id) || registry[setup_id].consumed {
        registry
    } else {
        registry.insert(
            setup_id,
            RecordView {
                order_active_or_reserved: false,
                instrument: None,
                broker_order_id: None,
                pending_entry_guard: None,
                ..registry[setup_id]
            },
        )
    }
}

/// Why a fill query for a setup is refused, if it is: an unsafe engine, an unknown setup, a
/// consumed setup, or a setup without a resting entry order.
pub open spec fn fill_refusal<G>(core: ExecutionCoreView<G>, setup_id: Seq<char>) -> Option<
    RejectionCode,
> {
    if !core.engine_safe {
        Some(RejectionCode::BrokerUnsafe)
    } else if !core.registry.dom().contains(setup_id) {
        Some(RejectionCode::ProcessError)
    } else if core.registry[setup_id].consumed {
        Some(RejectionCode::DuplicateSetup)
    } else if !core.registry[setup_id].order_active_or_reserved || core.registry[setup_id].state
        != Some(SetupState::OrderPending) || core.registry[setup_id].broker_order_id is None {
        Some(RejectionCode::ProcessError)
    } else {
        None
    }
}

/// The engine latch never resets, and every registry record only moves forward.
pub open spec fn core_step<G>(before: ExecutionCoreView<G>, after: ExecutionCoreView<G>) -> bool {
    &&& !before.engine_safe ==> !after.engine_safe
    &&& registry_progress(before.registry, after.registry)
}

/// The protected-bracket capability must be TRUE.
pub fn require_protected_bracket(capabilities: BrokerCapabilities) -> (r: Result<(), RejectionCode>)
    ensures
        r == (if capabilities.protected_stop_limit_bracket == Condition::True {
            Ok(())
        } else {
            Err(RejectionCode::BrokerUnsafe)
        }),
{
    if !capabilities.protected_stop_limit_bracket.permits() {
        return Err(RejectionCode::BrokerUnsafe);
    }
    Ok(())
}

fn check_reconciliation(recon: &BrokerReconciliation, setup_id: &str) -> (r: Result<(), RejectionCode>)
    ensures
        r == reconciliation_result(recon, setup_id@),
{
    if !recon.broker_safe().permits() {
        return Err(RejectionCode::BrokerUnsafe);
    }
    if !recon.no_conflicting_order.permits() {
        return Err(RejectionCode::ProcessError);
    }
    if !recon.setup_clear(setup_id).permits() {
        return Err(RejectionCode::DuplicateSetup);
    }
    Ok(())
}

impl<G> ExecutionCore<G> {
    pub closed spec fn wf(&self) -> bool {
        self.registry.wf()
    }

    pub fn new() -> (r: Self)
        ensures
            r.wf(),
            r@.engine_safe,
            r@.registry == Map::<Seq<char>, RecordView<G>>::empty(),
    {
        ExecutionCore { registry: SetupRegistry::new(), engine_safe: true }
    }

    /// Registers a setup for its owner.
    pub fn register_setup(&mut self, setup_id: &str, owner_agent_id: &str) -> (r: Result<
        (),
        RejectionCode,
    >)
        requires
            old(self).wf(),
        ensures
            final(self).wf(),
            r == (if blank(setup_id@) || blank(owner_agent_id@) {
                Err(RejectionCode::ProcessError)
            } else if old(self)@.registry.dom().contains(setup_id@) {
                Err(RejectionCode::DuplicateSetup)
            } else {
                Ok(())
            }),
            r is Ok ==> final(self)@.registry == old(self)@.registry.insert(
                setup_id@,
                RecordView::fresh(owner_agent_id@),
            ),
            r is Err ==> final(self)@.registry == old(self)@.registry,
            final(self)@.engine_safe == old(self)@.engine_safe,
    {
        self.registry.register_setup(setup_id, owner_agent_id)
    }

    /// TRUE while no broker failure has latched the engine unsafe.
    #[must_use]
    pub fn execution_engine_safe(&self) -> (r: Condition)
        ensures
            r == if self@.engine_safe {
                Condition::True
            } else {
                Condition::False
            },
    {
        if self.engine_safe {
            Condition::True
        } else {
            Condition::False
        }
    }

    #[must_use]
    pub fn registry(&self) -> (r: &SetupRegistry<G>)
        requires
            self.wf(),
        ensures
            r@ == self@.registry,
            r.wf(),
    {
        &self.registry
    }

    #[must_use]
    pub fn setup_status(&self, setup_id: &str) -> (r: Option<SetupRegistryStatus>)
        requires
            self.wf(),
        ensures
            r is None <==> !self@.registry.dom().contains(setup_id@),
            r matches Some(s) ==> {
                &&& s.owner_agent_id@ == self@.registry[setup_id@].owner_agent_id
                &&& s.consumed == self@.registry[setup_id@].consumed
                &&& s.order_active_or_reserved
                    == self@.registry[setup_id@].order_active_or_reserved
                &&& crate::promotion::opt_text(s.broker_order_id)
                    == self@.registry[setup_id@].broker_order_id
                &&& s.state == self@.registry[setup_id@].state
            },
    {
        self.registry.status(setup_id)
    }

    /// Gate checks before any broker call: engine safety, agent identity, the entry window
    /// recalculated now, the advisory pass, operational safety, and the proposal's own
    /// authority and ownership.
    pub fn gate_preflight(
        &self,
        safety: &OperationalSafetyController,
        proposal: &ProposalAuthority,
        context: ExecutionGateContext<'_>,
    ) -> (r: Result<(), RejectionCode>)
        ensures
            r == gate_preflight_result(
                self@.engine_safe,
                safety@,
                proposal@,
                context.submitting_agent_id@,
                context.llm_setup_pass,
                context.current_time_et,
            ),
    {
        if !self.engine_safe {
            return Err(RejectionCode::BrokerUnsafe);
        }
        if is_blank(context.submitting_agent_id) {
            return Err(RejectionCode::ProcessError);
        }
        if !SessionPermissions::at(context.current_time_et).allow_new_entries {
            return Err(RejectionCode::TimeCutoff);
        }
        if !context.llm_setup_pass.permits() {
            return Err(RejectionCode::ProcessError);
        }
        if !safety.agent_automation_allowed(context.submitting_agent_id).permits() {
            return Err(RejectionCode::ProcessError);
        }
        if proposal.execution_pass != Condition::Unknown || !proposal.strategy_pass.permits() {
            return Err(RejectionCode::ProcessError);
        }
        if !proposal.risk_pass.permits() {
            return Err(RejectionCode::RiskRejected);
        }
        if !proposal.portfolio_pass.permits() {
            return Err(RejectionCode::PortfolioRiskRejected);
        }
        if !str_equal(proposal.owner_agent_id.as_str(), context.submitting_agent_id) {
            return Err(RejectionCode::DuplicateSetup);
        }
        Ok(())
    }

    /// Gate checks on the reconciled broker state and the setup record; on success the setup is
    /// reserved for its owner at ENTRY_AUTHORIZED with the given entry guard.
    pub fn gate_commit(
        &mut self,
        proposal: &ProposalAuthority,
        context: ExecutionGateContext<'_>,
        reconciliation: &BrokerReconciliation,
        guard: G,
    ) -> (r: Result<(), RejectionCode>)
        requires
            old(self).wf(),
        ensures
            final(self).wf(),
            r == gate_commit_result(
                old(self)@.registry,
                proposal@,
                context.submitting_agent_id@,
                reconciliation,
            ),
            r is Ok ==> final(self)@.registry == old(self)@.registry.insert(
                proposal@.setup_id,
                RecordView {
                    order_active_or_reserved: true,
                    instrument: Some(proposal@.instrument),
                    pending_entry_guard: Some(guard),
                    state: Some(SetupState::EntryAuthorized),
                    ..old(self)@.registry[proposal@.setup_id]
                },
            ),
            r is Err ==> final(self)@.registry == old(self)@.registry,
            final(self)@.engine_safe == old(self)@.engine_safe,
    {
        check_reconciliation(reconciliation, proposal.setup_id.as_str())?;
        match self.registry.execution_record(proposal.setup_id.as_str()) {
            None => {
                return Err(RejectionCode::ProcessError);
            },
            Some(record) => {
                if !str_equal(record.owner_agent_id(), context.submitting_agent_id) || !str_equal(
                    record.owner_agent_id(),
                    proposal.owner_agent_id.as_str(),
                ) || record.consumed() || record.order_active_or_reserved() {
                    return Err(RejectionCode::DuplicateSetup);
                }
            },
        }
        self.registry.reserve_for_submission(
            proposal.setup_id.as_str(),
            context.submitting_agent_id,
            proposal.setup_id.as_str(),
            proposal.instrument.as_str(),
            guard,
        )
    }

    /// Transmission checks before any broker call. If the owner's automation is no longer
    /// allowed, the untransmitted reservation is cleared.
    pub fn submit_preflight(
        &mut self,
        safety: &OperationalSafetyController,
        owner_agent_id: &str,
        proposal: &ProposalAuthority,
        guard_matches: bool,
    ) -> (r: Result<(), RejectionCode>)
        requires
            old(self).wf(),
        ensures
            final(self).wf(),
            final(self)@.engine_safe == old(self)@.engine_safe,
            !old(self)@.engine_safe ==> r == Err::<(), RejectionCode>(RejectionCode::BrokerUnsafe)
                && final(self)@.registry == old(self)@.registry,
            old(self)@.engine_safe && agent_allowed(safety@, owner_agent_id@) != Condition::True
                ==> r == Err::<(), RejectionCode>(RejectionCode::ProcessError)
                && final(self)@.registry == cleared(old(self)@.registry, proposal@.setup_id),
            old(self)@.engine_safe && agent_allowed(safety@, owner_agent_id@) == Condition::True
                ==> final(self)@.registry == old(self)@.registry && r == (if reservation_intact(
                old(self)@.registry,
                proposal@,
                guard_matches,
            ) {
                Ok(())
            } else {
                Err(RejectionCode::ProcessError)
            }),
            core_step(old(self)@, final(self)@),
    {
        if !self.engine_safe {
            return Err(RejectionCode::BrokerUnsafe);
        }
        if !safety.agent_automation_allowed(owner_agent_id).permits() {
            self.registry.clear_reservation(proposal.setup_id.as_str());
            return Err(RejectionCode::ProcessError);
        }
        let valid = match self.registry.execution_record(proposal.setup_id.as_str()) {
            None => false,
            Some(record) => record.order_active_or_reserved() && !record.consumed()
                && record.broker_order_id().is_none() && match record.instrument() {
                Some(instrument) => str_equal(instrument, proposal.instrument.as_str()),
                None => false,
            } && record.state() == Some(SetupState::EntryAuthorized) && guard_matches,
        };
        if !valid {
            return Err(RejectionCode::ProcessError);
        }
        Ok(())
    }

    /// Transmission checks on the reconciliation answer (`None` when reconciliation failed).
    /// Any failure clears the untransmitted reservation.
    pub fn submit_reconciled(
        &mut self,
        setup_id: &str,
        reconciliation: Option<&BrokerReconciliation>,
    ) -> (r: Result<(), RejectionCode>)
        requires
            old(self).wf(),
        ensures
            final(self).wf(),
            final(self)@.engine_safe == old(self)@.engine_safe,
            r == match reconciliation {
                None => Err(RejectionCode::BrokerUnsafe),
                Some(recon) => reconciliation_result(recon, setup_id@),
            },
            r is Ok ==> final(self)@.registry == old(self)@.registry,
            r is Err ==> final(self)@.registry == cleared(old(self)@.registry, setup_id@),
            core_step(old(self)@, final(self)@),
    {
        let result = match reconciliation {
            None => Err(RejectionCode::BrokerUnsafe),
            Some(recon) => check_reconciliation(recon, setup_id),
        };
        if result.is_err() {
            self.registry.clear_reservation(setup_id);
        }
        result
    }

    /// The last checks before transmission: the protected bracket, then the entry window
    /// recalculated at this moment. Any failure clears the untransmitted reservation.
    pub fn submit_final_checks(
        &mut self,
        setup_id: &str,
        capabilities: BrokerCapabilities,
        current_time_et: crate::session::EtTime,
    ) -> (r: Result<(), RejectionCode>)
        requires
            old(self).wf(),
        ensures
            final(self).wf(),
            final(self)@.engine_safe == old(self)@.engine_safe,
            r == (if capabilities.protected_stop_limit_bracket != Condition::True {
                Err(RejectionCode::BrokerUnsafe)
            } else if !in_entry_window(current_time_et) {
                Err(RejectionCode::TimeCutoff)
            } else {
                Ok(())
            }),
            r is Ok ==> final(self)@.registry == old(self)@.registry,
            r is Err ==> final(self)@.registry == cleared(old(self)@.registry, setup_id@),
            core_step(old(self)@, final(self)@),
    {
        if !capabilities.protected_stop_limit_bracket.permits() {
            self.registry.clear_reservation(setup_id);
            return Err(RejectionCode::BrokerUnsafe);
        }
        if !SessionPermissions::at(current_time_et).allow_new_entries {
            self.registry.clear_reservation(setup_id);
            return Err(RejectionCode::TimeCutoff);
        }
        Ok(())
    }

    /// Records the broker's answer to the transmission (`None` when it failed). A failed or
    /// unidentified transmission latches the engine unsafe and is never retried. An accepted
    /// order is ORDER_PENDING; an immediate fill is FILLED and awaits its protective stop.
    pub fn record_submission(&mut self, setup_id: &str, submission: Option<&BrokerSubmission>) -> (r:
        Result<EntryProgress, RejectionCode>)
        requires
            old(self).wf(),
        ensures
            final(self).wf(),
            match submission {
                None => r == Err::<EntryProgress, RejectionCode>(RejectionCode::BrokerUnsafe)
                    && !final(self)@.engine_safe && final(self)@.registry == old(self)@.registry,
                Some(s) => if blank(s.broker_order_id@) {
                    &&& r == Err::<EntryProgress, RejectionCode>(RejectionCode::BrokerUnsafe)
                    &&& !final(self)@.engine_safe
                    &&& final(self)@.registry == old(self)@.registry
                } else {
                    &&& final(self)@.engine_safe == old(self)@.engine_safe
                    &&& match pending_order_result(old(self)@.registry, setup_id@, s.broker_order_id@) {
                        Err(e) => r == Err::<EntryProgress, RejectionCode>(e)
                            && final(self)@.registry == old(self)@.registry,
                        Ok(_) => if s.entry_filled {
                            &&& r matches Ok(EntryProgress::AwaitingProtection { broker_order_id })
                                && broker_order_id@ == s.broker_order_id@
                            &&& final(self)@.registry == with_fill(
                                with_pending_order(old(self)@.registry, setup_id@, s.broker_order_id@),
                                setup_id@,
                            )
                        } else {
                            &&& r matches Ok(EntryProgress::Pending { broker_order_id })
                                && broker_order_id@ == s.broker_order_id@
                            &&& final(self)@.registry == with_pending_order(
                                old(self)@.registry,
                                setup_id@,
                                s.broker_order_id@,
                            )
                        },
                    }
                },
            },
            core_step(old(self)@, final(self)@),
    {
        let submission = match submission {
            None => {
                self.engine_safe = false;
                return Err(RejectionCode::BrokerUnsafe);
            },
            Some(s) => s,
        };
        if is_blank(submission.broker_order_id.as_str()) {
            self.engine_safe = false;
            return Err(RejectionCode::BrokerUnsafe);
        }
        let ghost before = self.registry@;
        self.registry.record_pending_order(setup_id, submission.broker_order_id.as_str())?;
        if !submission.entry_filled {
            return Ok(EntryProgress::Pending { broker_order_id: submission.broker_order_id.clone() });
        }
        let ghost middle = self.registry@;
        self.registry.mark_filled_consumed(setup_id)?;
        proof {
            lemma_registry_progress(before, middle, self.registry@);
            lemma_registry_progress(middle, self.registry@, self.registry@);
        }
        Ok(EntryProgress::AwaitingProtection { broker_order_id: submission.broker_order_id.clone() })
    }

    /// Checks before asking the broker whether a resting entry filled; returns its broker order.
    pub fn fill_preflight(&self, setup_id: &str) -> (r: Result<String, RejectionCode>)
        requires
            self.wf(),
        ensures
            match fill_refusal(self@, setup_id@) {
                Some(e) => r == Err::<String, RejectionCode>(e),
                None => r is Ok && self@.registry[setup_id@].broker_order_id == Some(r->Ok_0@),
            },
    {
        if !self.engine_safe {
            return Err(RejectionCode::BrokerUnsafe);
        }
        let record = match self.registry.execution_record(setup_id) {
            None => {
                return Err(RejectionCode::ProcessError);
            },
            Some(record) => record,
        };
        if record.consumed() {
            return Err(RejectionCode::DuplicateSetup);
        }
        if !record.order_active_or_reserved() || record.state() != Some(SetupState::OrderPending) {
            return Err(RejectionCode::ProcessError);
        }
        match record.broker_order_id() {
            None => Err(RejectionCode::ProcessError),
            Some(id) => Ok(id.to_owned()),
        }
    }

    /// Records the broker's fill answer (`None` when the query failed). Not filled stays
    /// pending; UNKNOWN or a failed query latches the engine unsafe; a fill is FILLED and
    /// awaits its protective stop.
    pub fn record_fill(&mut self, setup_id: &str, broker_order_id: &str, filled: Option<Condition>) -> (r:
        Result<EntryProgress, RejectionCode>)
        requires
            old(self).wf(),
        ensures
            final(self).wf(),
            filled == Some(Condition::False) ==> {
                &&& r matches Ok(EntryProgress::Pending { broker_order_id: id })
                    && id@ == broker_order_id@
                &&& final(self)@ == old(self)@
            },
            (filled is None || filled == Some(Condition::Unknown)) ==> {
                &&& r == Err::<EntryProgress, RejectionCode>(RejectionCode::BrokerUnsafe)
                &&& !final(self)@.engine_safe
                &&& final(self)@.registry == old(self)@.registry
            },
            filled == Some(Condition::True) ==> {
                &&& final(self)@.engine_safe == old(self)@.engine_safe
                &&& match fill_result(old(self)@.registry, setup_id@) {
                    Err(e) => r == Err::<EntryProgress, RejectionCode>(e)
                        && final(self)@.registry == old(self)@.registry,
                    Ok(_) => (r matches Ok(EntryProgress::AwaitingProtection { broker_order_id: id })
                        && id@ == broker_order_id@) && final(self)@.registry == with_fill(
                        old(self)@.registry,
                        setup_id@,
                    ),
                }
            },
            core_step(old(self)@, final(self)@),
    {
        match filled {
            Some(Condition::False) => Ok(EntryProgress::Pending { broker_order_id: broker_order_id.to_owned() }),
            Some(Condition::True) => {
                self.registry.mark_filled_consumed(setup_id)?;
                Ok(EntryProgress::AwaitingProtection { broker_order_id: broker_order_id.to_owned() })
            },
            _ => {
                self.engine_safe = false;
                Err(RejectionCode::BrokerUnsafe)
            },
        }
    }

    /// Decides on the protective-stop answer after a fill. A confirmed stop moves the setup to
    /// POSITION_MANAGEMENT; otherwise the engine latches unsafe and the instrument must be
    /// flattened.
    pub fn confirm_protection(&mut self, setup_id: &str, broker_order_id: &str, stop_confirmed: bool) -> (r:
        Result<ProtectionDecision, RejectionCode>)
        requires
            old(self).wf(),
        ensures
            final(self).wf(),
            stop_confirmed ==> {
                &&& final(self)@.engine_safe == old(self)@.engine_safe
                &&& match position_management_result(old(self)@.registry, setup_id@) {
                    Err(e) => r == Err::<ProtectionDecision, RejectionCode>(e)
                        && final(self)@.registry == old(self)@.registry,
                    Ok(_) => (r matches Ok(ProtectionDecision::Protected { broker_order_id: id })
                        && id@ == broker_order_id@) && final(self)@.registry
                        == with_position_management(old(self)@.registry, setup_id@),
                }
            },
            !stop_confirmed ==> {
                &&& !final(self)@.engine_safe
                &&& final(self)@.registry == old(self)@.registry
                &&& match r {
                    Ok(ProtectionDecision::FlattenInstrument { instrument }) => old(
                        self,
                    )@.registry.dom().contains(setup_id@) && old(self)@.registry[setup_id@].instrument
                        == Some(instrument@),
                    Ok(ProtectionDecision::Protected { .. }) => false,
                    Err(e) => e == RejectionCode::ProcessError && (!old(self)@.registry.dom().contains(
                        setup_id@,
                    ) || old(self)@.registry[setup_id@].instrument is None),
                }
            },
            core_step(old(self)@, final(self)@),
    {
        if stop_confirmed {
            self.registry.mark_position_management(setup_id)?;
            return Ok(ProtectionDecision::Protected { broker_order_id: broker_order_id.to_owned() });
        }
        self.engine_safe = false;
        match self.registry.execution_record(setup_id) {
            None => Err(RejectionCode::ProcessError),
            Some(record) => match record.instrument() {
                None => Err(RejectionCode::ProcessError),
                Some(instrument) => Ok(ProtectionDecision::FlattenInstrument { instrument: instrument.to_owned() }),
            },
        }
    }

    /// Checks before reconciling a resting entry; returns its broker order.
    pub fn pending_entry_preflight(&self, setup_id: &str) -> (r: Result<String, RejectionCode>)
        requires
            self.wf(),
        ensures
            r is Ok <==> (self@.registry.dom().contains(setup_id@) && !self@.registry[setup_id@].consumed
                && self@.registry[setup_id@].order_active_or_reserved
                && self@.registry[setup_id@].state == Some(SetupState::OrderPending)
                && self@.registry[setup_id@].broker_order_id is Some
                && self@.registry[setup_id@].pending_entry_guard is Some),
            r is Ok ==> self@.registry[setup_id@].broker_order_id == Some(r.unwrap()@),
            r is Err ==> r == Err::<String, RejectionCode>(RejectionCode::ProcessError),
    {
        let record = match self.registry.execution_record(setup_id) {
            None => {
                return Err(RejectionCode::ProcessError);
            },
            Some(record) => record,
        };
        if record.consumed() || !record.order_active_or_reserved() || record.state() != Some(
            SetupState::OrderPending,
        ) {
            return Err(RejectionCode::ProcessError);
        }
        let id = match record.broker_order_id() {
            None => {
                return Err(RejectionCode::ProcessError);
            },
            Some(id) => id.to_owned(),
        };
        if record.pending_entry_guard().is_none() {
            return Err(RejectionCode::ProcessError);
        }
        Ok(id)
    }

    /// Decides on a resting entry that has not filled, from the slippage fact and the number
    /// of completed 5-minute candles since reconfirmation: UNKNOWN slippage latches the engine
    /// unsafe; inside the allowance and unexpired it stays pending; otherwise it is cancelled.
    pub fn pending_entry_decision(&mut self, slippage_clear: Condition, completed_5m_candles_since_reconfirmation: u32) -> (r: Result<
        PendingEntryAction,
        RejectionCode,
    >)
        ensures
            slippage_clear == Condition::Unknown ==> r == Err::<PendingEntryAction, RejectionCode>(
                RejectionCode::BrokerUnsafe,
            ) && !final(self)@.engine_safe,
            slippage_clear != Condition::Unknown ==> final(self)@.engine_safe == old(
                self,
            )@.engine_safe && r == Ok::<PendingEntryAction, RejectionCode>(
                if slippage_clear == Condition::True && completed_5m_candles_since_reconfirmation
                    < 2 {
                    PendingEntryAction::KeepPending
                } else {
                    PendingEntryAction::Cancel
                },
            ),
            final(self)@.registry == old(self)@.registry,
            final(self).wf() == old(self).wf(),
    {
        if slippage_clear == Condition::Unknown {
            self.engine_safe = false;
            return Err(RejectionCode::BrokerUnsafe);
        }
        if slippage_clear.permits() && !trigger_expired(completed_5m_candles_since_reconfirmation) {
            return Ok(PendingEntryAction::KeepPending);
        }
        Ok(PendingEntryAction::Cancel)
    }

    /// Records the broker's cancellation answer (`None` when the request failed). Only a
    /// confirmed cancellation marks the setup MISSED; anything else latches the engine unsafe
    /// without inventing a missed state.
    pub fn record_cancellation(&mut self, setup_id: &str, broker_order_id: &str, cancelled: Option<Condition>) -> (r:
        Result<ExecutionStatus, RejectionCode>)
        requires
            old(self).wf(),
        ensures
            final(self).wf(),
            cancelled == Some(Condition::True) ==> {
                &&& final(self)@.engine_safe == old(self)@.engine_safe
                &&& match missed_result(old(self)@.registry, setup_id@) {
                    Err(e) => r == Err::<ExecutionStatus, RejectionCode>(e)
                        && final(self)@.registry == old(self)@.registry,
                    Ok(_) => (r matches Ok(ExecutionStatus::Missed { broker_order_id: id })
                        && id@ == broker_order_id@) && final(self)@.registry == with_missed(
                        old(self)@.registry,
                        setup_id@,
                    ),
                }
            },
            cancelled != Some(Condition::True) ==> {
                &&& r == Err::<ExecutionStatus, RejectionCode>(RejectionCode::BrokerUnsafe)
                &&& !final(self)@.engine_safe
                &&& final(self)@.registry == old(self)@.registry
            },
            core_step(old(self)@, final(self)@),
    {
        match cancelled {
            Some(Condition::True) => {
                self.registry.mark_missed(setup_id)?;
                Ok(ExecutionStatus::Missed { broker_order_id: broker_order_id.to_owned() })
            },
            _ => {
                self.engine_safe = false;
                Err(RejectionCode::BrokerUnsafe)
            },
        }
    }

    /// Checks before an open-position safety cycle; returns the position's instrument. The
    /// cycle stays available after the entry cutoff.
    pub fn open_position_preflight(&self, setup_id: &str) -> (r: Result<String, RejectionCode>)
        requires
            self.wf(),
        ensures
            !self@.engine_safe ==> r == Err::<String, RejectionCode>(RejectionCode::BrokerUnsafe),
            self@.engine_safe ==> (r is Ok <==> (!blank(setup_id@)
                && self@.registry.dom().contains(setup_id@) && self@.registry[setup_id@].consumed
                && !self@.registry[setup_id@].order_active_or_reserved
                && self@.registry[setup_id@].broker_order_id is Some
                && self@.registry[setup_id@].state == Some(SetupState::PositionManagement)
                && (self@.registry[setup_id@].instrument matches Some(i) && !blank(i)))),
            r is Ok ==> self@.registry[setup_id@].instrument == Some(r.unwrap()@),
            self@.engine_safe && r is Err ==> r == Err::<String, RejectionCode>(
                RejectionCode::ProcessError,
            ),
    {
        if !self.engine_safe {
            return Err(RejectionCode::BrokerUnsafe);
        }
        if is_blank(setup_id) {
            return Err(RejectionCode::ProcessError);
        }
        let record = match self.registry.execution_record(setup_id) {
            None => {
                return Err(RejectionCode::ProcessError);
            },
            Some(record) => record,
        };
        if !record.consumed() || record.order_active_or_reserved() || record.broker_order_id().is_none()
            || record.state() != Some(SetupState::PositionManagement) {
            return Err(RejectionCode::ProcessError);
        }
        match record.instrument() {
            Some(instrument) => if is_blank(instrument) {
                Err(RejectionCode::ProcessError)
            } else {
                Ok(instrument.to_owned())
            },
            None => Err(RejectionCode::ProcessError),
        }
    }

    /// Decides on the stop answer of an open-position cycle. An unconfirmed stop latches the
    /// engine unsafe, and the caller must flatten the instrument.
    pub fn open_position_stop(&mut self, stop_confirmed: bool) -> (r: Result<(), RejectionCode>)
        ensures
            stop_confirmed ==> r is Ok && final(self)@.engine_safe == old(self)@.engine_safe,
            !stop_confirmed ==> r == Err::<(), RejectionCode>(RejectionCode::BrokerUnsafe)
                && !final(self)@.engine_safe,
            final(self)@.registry == old(self)@.registry,
            final(self).wf() == old(self).wf(),
    {
        if stop_confirmed {
            return Ok(());
        }
        self.engine_safe = false;
        Err(RejectionCode::BrokerUnsafe)
    }
}

/// The position of an open-position cycle must be reconciled as safe and present at the broker
/// (`None` when reconciliation failed).
pub fn open_position_reconciled(reconciliation: Option<&BrokerReconciliation>, setup_id: &str) -> (r:
    Result<(), RejectionCode>)
    ensures
        r == match reconciliation {
            None => Err(RejectionCode::BrokerUnsafe),
            Some(recon) => if conjunction(recon.safety_facts()) != Condition::True || !texts(
                recon.position_setup_ids@,
            ).contains(setup_id@) {
                Err(RejectionCode::BrokerUnsafe)
            } else {
                Ok(())
            },
        },
{
    match reconciliation {
        None => Err(RejectionCode::BrokerUnsafe),
        Some(recon) => if !recon.broker_safe().permits() || !contains_text(
            &recon.position_setup_ids,
            setup_id,
        ) {
            Err(RejectionCode::BrokerUnsafe)
        } else {
            Ok(())
        },
    }
}

/// Entry authorization never reserves a setup whose execution tail has already begun: a setup that is
/// pending, filled, managed or terminal cannot be reserved again, so it is transmitted at most
/// once.
pub proof fn lemma_transmitted_setup_not_reserved_again<G>(
    registry: Map<Seq<char>, RecordView<G>>,
    proposal: ProposalAuthorityView,
    agent: Seq<char>,
    recon: &BrokerReconciliation,
)
    requires
        registry.dom().contains(proposal.setup_id),
        registry[proposal.setup_id].state matches Some(s) && s != SetupState::EntryAuthorized,
    ensures
        gate_commit_result(registry, proposal, agent, recon) is Err,
{
}

/// A passed execution gate means every pre-broker authority held: the engine was safe, the agent
/// identified and allowed, the entry window open now, and the advisory, strategy, risk and
/// portfolio passes TRUE.
pub proof fn lemma_gate_requires_every_authority(
    engine_safe: bool,
    safety: crate::safety::SafetyView,
    proposal: ProposalAuthorityView,
    agent: Seq<char>,
    llm_setup_pass: Condition,
    now: crate::session::EtTime,
)
    requires
        gate_preflight_result(engine_safe, safety, proposal, agent, llm_setup_pass, now) is Ok,
    ensures
        engine_safe,
        !blank(agent),
        in_entry_window(now),
        llm_setup_pass == Condition::True,
        agent_allowed(safety, agent) == Condition::True,
        proposal.strategy_pass == Condition::True,
        proposal.risk_pass == Condition::True,
        proposal.portfolio_pass == Condition::True,
        proposal.execution_pass == Condition::Unknown,
        proposal.owner_agent_id == agent,
{
}

/// Once the engine is unsafe it refuses every new entry at the execution gate and every fill
/// query of a resting entry, whatever else holds.
pub proof fn lemma_unsafe_engine_refuses<G>(
    core: ExecutionCoreView<G>,
    safety: crate::safety::SafetyView,
    proposal: ProposalAuthorityView,
    agent: Seq<char>,
    llm_setup_pass: Condition,
    now: crate::session::EtTime,
    setup_id: Seq<char>,
)
    requires
        !core.engine_safe,
    ensures
        gate_preflight_result(core.engine_safe, safety, proposal, agent, llm_setup_pass, now)
            == Err::<(), RejectionCode>(RejectionCode::BrokerUnsafe),
        fill_refusal(core, setup_id) == Some(RejectionCode::BrokerUnsafe),
{
}

/// Clearing an untransmitted reservation keeps every setup and its lifecycle state: an
/// ENTRY_AUTHORIZED setup stays ENTRY_AUTHORIZED and nothing regresses.
pub proof fn lemma_clearing_keeps_state<G>(registry: Map<Seq<char>, RecordView<G>>, setup_id: Seq<char>)
    ensures
        cleared(registry, setup_id).dom() == registry.dom(),
        forall|k: Seq<char>|
            #[trigger] registry.dom().contains(k) ==> cleared(registry, setup_id)[k].state
                == registry[k].state && cleared(registry, setup_id)[k].consumed == registry[k].consumed,
{
    assert(cleared(registry, setup_id).dom() =~= registry.dom());
}

/// A setup the reconciled broker already holds, as an open order or as a position, is never
/// clear: reconciliation refuses it (as a duplicate once the broker is safe and conflict-free),
/// and entry authorization reserves nothing for it. A setup is clear only when the broker lists it in
/// neither.
pub proof fn lemma_broker_held_setup_is_refused<G>(
    recon: &BrokerReconciliation,
    registry: Map<Seq<char>, RecordView<G>>,
    proposal: ProposalAuthorityView,
    agent: Seq<char>,
)
    ensures
        (texts(recon.open_order_setup_ids@).contains(proposal.setup_id) || texts(
            recon.position_setup_ids@,
        ).contains(proposal.setup_id)) ==> {
            &&& recon.setup_clear_result(proposal.setup_id) != Condition::True
            &&& reconciliation_result(recon, proposal.setup_id) is Err
            &&& (conjunction(recon.safety_facts()) == Condition::True
                && recon.no_conflicting_order == Condition::True) ==> reconciliation_result(
                recon,
                proposal.setup_id,
            ) == Err::<(), RejectionCode>(RejectionCode::DuplicateSetup)
            &&& gate_commit_result(registry, proposal, agent, recon) is Err
        },
        recon.setup_clear_result(proposal.setup_id) == Condition::True ==> {
            &&& !texts(recon.open_order_setup_ids@).contains(proposal.setup_id)
            &&& !texts(recon.position_setup_ids@).contains(proposal.setup_id)
            &&& recon.position_state_known == Condition::True
            &&& recon.open_order_state_known == Condition::True
        },
{
}

} // verus!
