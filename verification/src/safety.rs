//! Operational safety: health, emergency drawdown and process-violation latches.
use crate::rejection::RejectionCode;
use crate::text::{blank, contains_text, is_blank, texts};
use crate::truth::{all_conditions, conjunction, Condition};
use vstd::prelude::*;

verus! {

/// Where a process violation originated. The caller classifies it explicitly.
#[derive(Debug, Clone, PartialEq, Eq)]
pub enum ProcessViolationScope {
    Agent(String),
    SharedInfrastructure,
}

/// The observable state of an operational-safety controller.
pub struct SafetyView {
    pub operational_risk_clear: Condition,
    pub emergency_drawdown_clear: Condition,
    pub system_disabled: bool,
    pub disabled_agents: Set<Seq<char>>,
}

/// Operational-safety state. Health and emergency-drawdown facts start UNKNOWN, so a new
/// controller authorizes no automation until both are validated. A confirmed emergency
/// drawdown and every process-violation disable are latched for the controller's lifetime.
#[derive(Debug, Default)]
pub struct OperationalSafetyController {
    operational_risk_clear: Condition,
    emergency_drawdown_clear: Condition,
    system_disabled: bool,
    disabled_agents: Vec<String>,
}

impl View for OperationalSafetyController {
    type V = SafetyView;

    closed spec fn view(&self) -> SafetyView {
        SafetyView {
            operational_risk_clear: self.operational_risk_clear,
            emergency_drawdown_clear: self.emergency_drawdown_clear,
            system_disabled: self.system_disabled,
            disabled_agents: texts(self.disabled_agents@).to_set(),
        }
    }
}

/// Whether new automation of the whole system is allowed.
pub open spec fn system_allowed(v: SafetyView) -> Condition {
    if v.system_disabled {
        Condition::False
    } else {
        conjunction(seq![v.operational_risk_clear, v.emergency_drawdown_clear])
    }
}

/// Whether new automation of one agent is allowed.
pub open spec fn agent_allowed(v: SafetyView, agent_id: Seq<char>) -> Condition {
    if blank(agent_id) {
        Condition::Unknown
    } else if v.system_disabled || v.disabled_agents.contains(agent_id) {
        Condition::False
    } else {
        conjunction(seq![v.operational_risk_clear, v.emergency_drawdown_clear])
    }
}

impl OperationalSafetyController {
    #[must_use]
    pub fn new() -> (r: Self)
        ensures
            r@.operational_risk_clear == Condition::Unknown,
            r@.emergency_drawdown_clear == Condition::Unknown,
            !r@.system_disabled,
            r@.disabled_agents == Set::<Seq<char>>::empty(),
    {
        let r = OperationalSafetyController {
            operational_risk_clear: Condition::Unknown,
            emergency_drawdown_clear: Condition::Unknown,
            system_disabled: false,
            disabled_agents: Vec::new(),
        };
        proof {
            assert(texts(r.disabled_agents@).to_set() =~= Set::<Seq<char>>::empty());
        }
        r
    }

    /// Records an already validated aggregate operational-health fact.
    pub fn set_operational_risk_clear(&mut self, condition: Condition)
        ensures
            final(self)@.operational_risk_clear == condition,
            final(self)@.emergency_drawdown_clear == old(self)@.emergency_drawdown_clear,
            final(self)@.system_disabled == old(self)@.system_disabled,
            final(self)@.disabled_agents == old(self)@.disabled_agents,
    {
        self.operational_risk_clear = condition;
    }

    #[must_use]
    pub fn operational_risk_clear(&self) -> (r: Condition)
        ensures
            r == self@.operational_risk_clear,
    {
        self.operational_risk_clear
    }

    #[must_use]
    pub fn emergency_drawdown_clear(&self) -> (r: Condition)
        ensures
            r == self@.emergency_drawdown_clear,
    {
        self.emergency_drawdown_clear
    }

    #[must_use]
    pub fn system_disabled(&self) -> (r: bool)
        ensures
            r == self@.system_disabled,
    {
        self.system_disabled
    }

    #[must_use]
    pub fn agent_disabled(&self, agent_id: &str) -> (r: bool)
        ensures
            r == self@.disabled_agents.contains(agent_id@),
    {
        proof {
            lemma_texts_to_set(self.disabled_agents@);
        }
        contains_text(&self.disabled_agents, agent_id)
    }

    /// Consumes a deterministic threshold result. TRUE disables the whole system for good;
    /// FALSE clears the drawdown fact; UNKNOWN blocks without a permanent latch.
    pub fn observe_emergency_drawdown(&mut self, reached: Condition)
        ensures
            final(self)@.emergency_drawdown_clear == match reached {
                Condition::True => Condition::False,
                Condition::False => Condition::True,
                Condition::Unknown => Condition::Unknown,
            },
            final(self)@.system_disabled == (old(self)@.system_disabled || reached
                == Condition::True),
            final(self)@.operational_risk_clear == old(self)@.operational_risk_clear,
            final(self)@.disabled_agents == old(self)@.disabled_agents,
    {
        match reached {
            Condition::True => {
                self.emergency_drawdown_clear = Condition::False;
                self.system_disabled = true;
            },
            Condition::False => {
                self.emergency_drawdown_clear = Condition::True;
            },
            Condition::Unknown => {
                self.emergency_drawdown_clear = Condition::Unknown;
            },
        }
    }

    /// Disables the affected agent, or the whole system when shared infrastructure failed. A
    /// blank agent identifier degrades operational health to UNKNOWN and is a process error.
    pub fn record_process_violation(&mut self, scope: ProcessViolationScope) -> (r: Result<
        (),
        RejectionCode,
    >)
        ensures
            match scope {
                ProcessViolationScope::Agent(agent_id) => if blank(agent_id@) {
                    &&& r == Err::<(), RejectionCode>(RejectionCode::ProcessError)
                    &&& final(self)@.operational_risk_clear == Condition::Unknown
                    &&& final(self)@.disabled_agents == old(self)@.disabled_agents
                } else {
                    &&& r is Ok
                    &&& final(self)@.operational_risk_clear == old(self)@.operational_risk_clear
                    &&& final(self)@.disabled_agents == old(self)@.disabled_agents.insert(
                        agent_id@,
                    )
                },
                ProcessViolationScope::SharedInfrastructure => {
                    &&& r is Ok
                    &&& final(self)@.operational_risk_clear == old(self)@.operational_risk_clear
                    &&& final(self)@.disabled_agents == old(self)@.disabled_agents
                },
            },
            final(self)@.system_disabled == (old(self)@.system_disabled || scope
                is SharedInfrastructure),
            final(self)@.emergency_drawdown_clear == old(self)@.emergency_drawdown_clear,
    {
        match scope {
            ProcessViolationScope::Agent(agent_id) => {
                if is_blank(agent_id.as_str()) {
                    self.operational_risk_clear = Condition::Unknown;
                    return Err(RejectionCode::ProcessError);
                }
                let ghost before = self.disabled_agents@;
                if !contains_text(&self.disabled_agents, agent_id.as_str()) {
                    self.disabled_agents.push(agent_id);
                    proof {
                        assert(texts(self.disabled_agents@) =~= texts(before).push(
                            self.disabled_agents@.last()@,
                        ));
                        texts(before).lemma_push_to_set_commute(self.disabled_agents@.last()@);
                    }
                } else {
                    proof {
                        lemma_texts_to_set(before);
                        assert(texts(before).to_set().insert(agent_id@) =~= texts(
                            before,
                        ).to_set());
                    }
                }
            },
            ProcessViolationScope::SharedInfrastructure => {
                self.system_disabled = true;
            },
        }
        Ok(())
    }

    /// New automation is allowed only when every operational safety fact is TRUE and no
    /// system-wide latch has fired.
    #[must_use]
    pub fn system_automation_allowed(&self) -> (r: Condition)
        ensures
            r == system_allowed(self@),
    {
        if self.system_disabled {
            return Condition::False;
        }
        let facts = [self.operational_risk_clear, self.emergency_drawdown_clear];
        proof {
            assert(facts@ =~= seq![self.operational_risk_clear, self.emergency_drawdown_clear]);
        }
        all_conditions(&facts)
    }

    /// Agent-local isolation on top of shared system safety. A blank identifier is UNKNOWN
    /// rather than mapped to another agent or scope.
    #[must_use]
    pub fn agent_automation_allowed(&self, agent_id: &str) -> (r: Condition)
        ensures
            r == agent_allowed(self@, agent_id@),
    {
        if is_blank(agent_id) {
            return Condition::Unknown;
        }
        if self.system_disabled || self.agent_disabled(agent_id) {
            return Condition::False;
        }
        let facts = [self.operational_risk_clear, self.emergency_drawdown_clear];
        proof {
            assert(facts@ =~= seq![self.operational_risk_clear, self.emergency_drawdown_clear]);
        }
        all_conditions(&facts)
    }
}

proof fn lemma_texts_to_set(v: Seq<String>)
    ensures
        forall|s: Seq<char>| texts(v).to_set().contains(s) <==> texts(v).contains(s),
{
}

/// Tri-state aggregation of caller-validated operational-clear facts: FALSE dominates
/// UNKNOWN, UNKNOWN dominates TRUE, and no facts at all is TRUE.
#[must_use]
pub fn aggregate_operational_risk_clear(signals_clear: &[Condition]) -> (r: Condition)
    ensures
        r == conjunction(signals_clear@),
{
    all_conditions(signals_clear)
}

/// Once the system is disabled it stays disabled, whatever is observed or recorded next, and
/// a disabled system allows no automation for any agent.
pub proof fn lemma_system_latch(v: SafetyView, agent_id: Seq<char>)
    requires
        v.system_disabled,
    ensures
        system_allowed(v) == Condition::False,
        !blank(agent_id) ==> agent_allowed(v, agent_id) == Condition::False,
{
}

/// A disabled agent allows no automation regardless of the operational facts, and other
/// agents are not affected by its disable.
pub proof fn lemma_agent_isolation(v: SafetyView, agent: Seq<char>, other: Seq<char>)
    requires
        v.disabled_agents.contains(agent),
        !blank(agent),
        !blank(other),
        !v.disabled_agents.contains(other),
    ensures
        agent_allowed(v, agent) == Condition::False,
        agent_allowed(v, other) == system_allowed(v),
{
}

/// An agent is never allowed more than the system as a whole.
pub proof fn lemma_agent_bounded_by_system(v: SafetyView, agent: Seq<char>)
    ensures
        system_allowed(v) != Condition::True ==> agent_allowed(v, agent) != Condition::True,
{
}

} // verus!
