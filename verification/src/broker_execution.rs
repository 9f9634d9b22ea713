//! Broker reconciliation facts and execution records on plain values.
use crate::session::EtTime;
use crate::setup_state::SetupState;
use crate::text::{blank, contains_text, is_blank, texts};
use crate::truth::{all_conditions, conjunction, from_bool, Condition};
use vstd::prelude::*;

verus! {

#[derive(Debug, Clone, Copy, PartialEq, Eq, Structural)]
pub struct BrokerCapabilities {
    pub protected_stop_limit_bracket: Condition,
}

/// What the broker reported at reconciliation.
#[derive(Debug, Clone, PartialEq, Eq)]
pub struct BrokerReconciliation {
    pub broker_connected: Condition,
    pub broker_state_known: Condition,
    pub position_state_known: Condition,
    pub open_order_state_known: Condition,
    /// Provider-neutral conflicting-order fact; FALSE or UNKNOWN fails closed before transmission.
    pub no_conflicting_order: Condition,
    pub open_order_setup_ids: Vec<String>,
    pub position_setup_ids: Vec<String>,
}

impl BrokerReconciliation {
    pub open spec fn safety_facts(&self) -> Seq<Condition> {
        seq![
            self.broker_connected,
            self.broker_state_known,
            self.position_state_known,
            self.open_order_state_known,
        ]
    }

    /// Whether a setup has no open order and no position at the broker.
    pub open spec fn setup_clear_result(&self, setup_id: Seq<char>) -> Condition {
        if self.position_state_known != Condition::True || self.open_order_state_known
            != Condition::True || blank(setup_id) {
            Condition::Unknown
        } else {
            from_bool(
                !(texts(self.open_order_setup_ids@).contains(setup_id) || texts(
                    self.position_setup_ids@,
                ).contains(setup_id)),
            )
        }
    }

    /// Tri-state conjunction of connection, broker, position and open-order state knowledge.
    #[must_use]
    pub fn broker_safe(&self) -> (r: Condition)
        ensures
            r == conjunction(self.safety_facts()),
    {
        let facts = [
            self.broker_connected,
            self.broker_state_known,
            self.position_state_known,
            self.open_order_state_known,
        ];
        proof {
            assert(facts@ =~= self.safety_facts());
        }
        all_conditions(&facts)
    }

    /// A setup is clear only when position and open-order state are known and the setup has
    /// neither an open order nor a position; a blank identifier is UNKNOWN.
    #[must_use]
    pub fn setup_clear(&self, setup_id: &str) -> (r: Condition)
        ensures
            r == self.setup_clear_result(setup_id@),
    {
        if !self.position_state_known.permits() || !self.open_order_state_known.permits()
            || is_blank(setup_id) {
            return Condition::Unknown;
        }
        let present = contains_text(&self.open_order_setup_ids, setup_id) || contains_text(
            &self.position_setup_ids,
            setup_id,
        );
        Condition::from(!present)
    }
}

#[derive(Debug, Clone, PartialEq, Eq)]
pub struct BrokerSubmission {
    pub broker_order_id: String,
    pub entry_filled: bool,
}

#[derive(Debug, Clone, PartialEq, Eq)]
pub enum ExecutionStatus {
    Pending { broker_order_id: String },
    Missed { broker_order_id: String },
    FilledProtected { broker_order_id: String },
}

#[derive(Debug, Clone, PartialEq, Eq)]
pub struct SetupRegistryStatus {
    pub owner_agent_id: String,
    pub consumed: bool,
    pub order_active_or_reserved: bool,
    pub broker_order_id: Option<String>,
    pub state: Option<SetupState>,
}

/// Live execution context. The current time is mandatory and is recalculated when authorizing
/// rather than trusted from an earlier strategy proof.
#[derive(Debug, Clone, Copy)]
pub struct ExecutionGateContext<'a> {
    pub submitting_agent_id: &'a str,
    pub llm_setup_pass: Condition,
    pub current_time_et: EtTime,
}

} // verus!
