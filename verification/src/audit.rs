//! The append-only audit journal: qualified setups, state changes, terminal records, rule
//! compliance and prevention counters. It holds no authorization, risk, broker or order handle.
use crate::rejection::RejectionCode;
use crate::setup_state::SetupState;
use crate::text::{blank, contains_text, is_blank, texts};
use crate::truth::Condition;
use vstd::prelude::*;

verus! {

#[derive(Debug, Clone, Copy, PartialEq, Eq, Structural)]
pub struct EffortResultSnapshot {
    pub favorable_effort_successful: Condition,
    pub favorable_effort_failure: Condition,
}

#[derive(Debug, Clone, Copy, PartialEq, Eq, Structural)]
pub struct EffortResultChange {
    pub from: EffortResultSnapshot,
    pub to: EffortResultSnapshot,
}

/// A state-change journal entry. The journal does not validate the transition: an illegal
/// observed transition must remain visible.
#[derive(Debug, Clone, PartialEq, Eq)]
pub struct StateChangeRecord {
    pub setup_id: String,
    pub from: SetupState,
    pub to: SetupState,
}

#[derive(Debug, Clone, Copy, PartialEq, Eq)]
pub struct RejectedSetupRecord<'a> {
    pub setup_id: &'a str,
    pub rejection_code: RejectionCode,
}

#[derive(Debug, Clone, PartialEq, Eq)]
pub struct StoredRejectedSetupRecord {
    pub setup_id: String,
    pub rejection_code: RejectionCode,
}

#[derive(Debug, Clone, Copy, PartialEq, Eq, Structural)]
pub enum AuditError {
    InvalidRecord,
    DuplicateRecord,
}

/// Observable content of the journal.
pub struct AuditJournalView {
    pub qualified_setup_ids: Seq<Seq<char>>,
    pub state_changes: Seq<(Seq<char>, SetupState, SetupState)>,
    pub completed_trade_setup_ids: Seq<Seq<char>>,
    pub rejected_setups: Seq<(Seq<char>, RejectionCode)>,
    pub rule_compliance: Seq<bool>,
    pub duplicate_signals_prevented: u64,
    pub risk_conflicts_prevented: u64,
    pub execution_failures: u64,
}

impl AuditJournalView {
    /// Identifiers of every terminal record, completed trades first.
    pub open spec fn terminal_ids(self) -> Seq<Seq<char>> {
        self.completed_trade_setup_ids + self.rejected_setups.map_values(
            |r: (Seq<char>, RejectionCode)| r.0,
        )
    }

    /// Each setup is qualified at most once and has at most one terminal record.
    pub open spec fn unique_records(self) -> bool {
        self.qualified_setup_ids.no_duplicates() && self.terminal_ids().no_duplicates()
    }

    /// `later` extends this journal: every list only grew at its end and no counter went down.
    pub open spec fn extended_by(self, later: AuditJournalView) -> bool {
        &&& self.qualified_setup_ids.is_prefix_of(later.qualified_setup_ids)
        &&& self.state_changes.is_prefix_of(later.state_changes)
        &&& self.completed_trade_setup_ids.is_prefix_of(later.completed_trade_setup_ids)
        &&& self.rejected_setups.is_prefix_of(later.rejected_setups)
        &&& self.rule_compliance.is_prefix_of(later.rule_compliance)
        &&& self.duplicate_signals_prevented <= later.duplicate_signals_prevented
        &&& self.risk_conflicts_prevented <= later.risk_conflicts_prevented
        &&& self.execution_failures <= later.execution_failures
    }
}

/// Append-only audit journal.
#[derive(Debug, Default)]
pub struct AuditJournal {
    qualified_setup_ids: Vec<String>,
    state_changes: Vec<StateChangeRecord>,
    completed_trade_setup_ids: Vec<String>,
    rejected_setups: Vec<StoredRejectedSetupRecord>,
    rule_compliance_observations: Vec<bool>,
    duplicate_signals_prevented: u64,
    risk_conflicts_prevented: u64,
    execution_failures: u64,
}

pub open spec fn state_change_view(r: StateChangeRecord) -> (Seq<char>, SetupState, SetupState) {
    (r.setup_id@, r.from, r.to)
}

pub open spec fn rejected_view(r: StoredRejectedSetupRecord) -> (Seq<char>, RejectionCode) {
    (r.setup_id@, r.rejection_code)
}

impl View for AuditJournal {
    type V = AuditJournalView;

    closed spec fn view(&self) -> AuditJournalView {
        AuditJournalView {
            qualified_setup_ids: texts(self.qualified_setup_ids@),
            state_changes: self.state_changes@.map_values(|r: StateChangeRecord| state_change_view(r)),
            completed_trade_setup_ids: texts(self.completed_trade_setup_ids@),
            rejected_setups: self.rejected_setups@.map_values(
                |r: StoredRejectedSetupRecord| rejected_view(r),
            ),
            rule_compliance: self.rule_compliance_observations@,
            duplicate_signals_prevented: self.duplicate_signals_prevented,
            risk_conflicts_prevented: self.risk_conflicts_prevented,
            execution_failures: self.execution_failures,
        }
    }
}

/// A list of texts stays duplicate-free when a text it does not contain is appended.
proof fn lemma_push_unique(s: Seq<Seq<char>>, x: Seq<char>)
    requires
        s.no_duplicates(),
        !s.contains(x),
    ensures
        s.push(x).no_duplicates(),
{
    assert forall|i: int, j: int|
        0 <= i < s.push(x).len() && 0 <= j < s.push(x).len() && i != j implies s.push(x)[i]
        != s.push(x)[j] by {
        if i < s.len() && j < s.len() {
        } else if i < s.len() {
            assert(s.push(x)[i] == s[i]);
        } else if j < s.len() {
            assert(s.push(x)[j] == s[j]);
        }
    }
}

impl AuditJournal {
    #[must_use]
    pub fn new() -> (r: Self)
        ensures
            r@.qualified_setup_ids.len() == 0,
            r@.state_changes.len() == 0,
            r@.completed_trade_setup_ids.len() == 0,
            r@.rejected_setups.len() == 0,
            r@.rule_compliance.len() == 0,
            r@.duplicate_signals_prevented == 0,
            r@.risk_conflicts_prevented == 0,
            r@.execution_failures == 0,
            r@.unique_records(),
    {
        let r = AuditJournal {
            qualified_setup_ids: Vec::new(),
            state_changes: Vec::new(),
            completed_trade_setup_ids: Vec::new(),
            rejected_setups: Vec::new(),
            rule_compliance_observations: Vec::new(),
            duplicate_signals_prevented: 0,
            risk_conflicts_prevented: 0,
            execution_failures: 0,
        };
        proof {
            assert(r@.terminal_ids() =~= Seq::<Seq<char>>::empty());
        }
        r
    }

    fn terminal_record_exists(&self, setup_id: &str) -> (r: bool)
        ensures
            r == self@.terminal_ids().contains(setup_id@),
    {
        let mut i: usize = 0;
        let n = self.rejected_setups.len();
        let ghost rejected_ids = self@.rejected_setups.map_values(
            |r: (Seq<char>, RejectionCode)| r.0,
        );
        if contains_text(&self.completed_trade_setup_ids, setup_id) {
            assert(self@.terminal_ids().contains(setup_id@)) by {
                let k = choose|k: int|
                    0 <= k < self@.completed_trade_setup_ids.len()
                        && self@.completed_trade_setup_ids[k] == setup_id@;
                assert(self@.terminal_ids()[k] == setup_id@);
            }
            return true;
        }
        while i < n
            invariant
                n == self.rejected_setups@.len(),
                i <= n,
                rejected_ids == self@.rejected_setups.map_values(
                    |r: (Seq<char>, RejectionCode)| r.0,
                ),
                forall|j: int| 0 <= j < i ==> rejected_ids[j] != setup_id@,
            decreases n - i,
        {
            if crate::text::str_equal(self.rejected_setups[i].setup_id.as_str(), setup_id) {
                assert(rejected_ids[i as int] == setup_id@);
                assert(self@.terminal_ids()[self@.completed_trade_setup_ids.len() + i]
                    == setup_id@);
                return true;
            }
            i = i + 1;
        }
        assert(!self@.terminal_ids().contains(setup_id@)) by {
            if self@.terminal_ids().contains(setup_id@) {
                let k = choose|k: int|
                    0 <= k < self@.terminal_ids().len() && self@.terminal_ids()[k] == setup_id@;
                if k < self@.completed_trade_setup_ids.len() {
                    assert(self@.completed_trade_setup_ids[k] == setup_id@);
                } else {
                    assert(rejected_ids[k - self@.completed_trade_setup_ids.len()] == setup_id@);
                }
            }
        }
        false
    }

    /// Records a qualified setup once; blank identifiers are invalid and repeats are
    /// duplicates.
    pub fn record_qualified_setup(&mut self, setup_id: &str) -> (r: Result<(), AuditError>)
        ensures
            r == (if blank(setup_id@) {
                Err(AuditError::InvalidRecord)
            } else if old(self)@.qualified_setup_ids.contains(setup_id@) {
                Err(AuditError::DuplicateRecord)
            } else {
                Ok(())
            }),
            final(self)@.qualified_setup_ids == if r is Ok {
                old(self)@.qualified_setup_ids.push(setup_id@)
            } else {
                old(self)@.qualified_setup_ids
            },
            final(self)@.state_changes == old(self)@.state_changes,
            final(self)@.completed_trade_setup_ids == old(self)@.completed_trade_setup_ids,
            final(self)@.rejected_setups == old(self)@.rejected_setups,
            final(self)@.rule_compliance == old(self)@.rule_compliance,
            final(self)@.duplicate_signals_prevented == old(self)@.duplicate_signals_prevented,
            final(self)@.risk_conflicts_prevented == old(self)@.risk_conflicts_prevented,
            final(self)@.execution_failures == old(self)@.execution_failures,
            old(self)@.unique_records() ==> final(self)@.unique_records(),
    {
        if is_blank(setup_id) {
            return Err(AuditError::InvalidRecord);
        }
        if contains_text(&self.qualified_setup_ids, setup_id) {
            return Err(AuditError::DuplicateRecord);
        }
        let ghost before = self@;
        self.qualified_setup_ids.push(setup_id.to_owned());
        proof {
            assert(self@.qualified_setup_ids =~= before.qualified_setup_ids.push(setup_id@));
            if before.unique_records() {
                lemma_push_unique(before.qualified_setup_ids, setup_id@);
            }
        }
        Ok(())
    }

    /// Appends a state change as observed; only a blank setup identifier is refused.
    pub fn record_state_change(&mut self, setup_id: &str, from: SetupState, to: SetupState) -> (r:
        Result<(), AuditError>)
        ensures
            r == (if blank(setup_id@) {
                Err(AuditError::InvalidRecord)
            } else {
                Ok(())
            }),
            final(self)@.state_changes == if r is Ok {
                old(self)@.state_changes.push((setup_id@, from, to))
            } else {
                old(self)@.state_changes
            },
            final(self)@.qualified_setup_ids == old(self)@.qualified_setup_ids,
            final(self)@.completed_trade_setup_ids == old(self)@.completed_trade_setup_ids,
            final(self)@.rejected_setups == old(self)@.rejected_setups,
            final(self)@.rule_compliance == old(self)@.rule_compliance,
            final(self)@.duplicate_signals_prevented == old(self)@.duplicate_signals_prevented,
            final(self)@.risk_conflicts_prevented == old(self)@.risk_conflicts_prevented,
            final(self)@.execution_failures == old(self)@.execution_failures,
            old(self)@.unique_records() ==> final(self)@.unique_records(),
    {
        if is_blank(setup_id) {
            return Err(AuditError::InvalidRecord);
        }
        let ghost before = self@;
        self.state_changes.push(StateChangeRecord { setup_id: setup_id.to_owned(), from, to });
        proof {
            assert(self@.state_changes =~= before.state_changes.push((setup_id@, from, to)));
        }
        Ok(())
    }

    /// Records the terminal completed-trade entry of a setup. A setup may have only one
    /// terminal record, completed or rejected.
    pub fn record_completed_trade(&mut self, setup_id: &str) -> (r: Result<(), AuditError>)
        ensures
            r == (if blank(setup_id@) {
                Err(AuditError::InvalidRecord)
            } else if old(self)@.terminal_ids().contains(setup_id@) {
                Err(AuditError::DuplicateRecord)
            } else {
                Ok(())
            }),
            final(self)@.completed_trade_setup_ids == if r is Ok {
                old(self)@.completed_trade_setup_ids.push(setup_id@)
            } else {
                old(self)@.completed_trade_setup_ids
            },
            final(self)@.qualified_setup_ids == old(self)@.qualified_setup_ids,
            final(self)@.state_changes == old(self)@.state_changes,
            final(self)@.rejected_setups == old(self)@.rejected_setups,
            final(self)@.rule_compliance == old(self)@.rule_compliance,
            final(self)@.duplicate_signals_prevented == old(self)@.duplicate_signals_prevented,
            final(self)@.risk_conflicts_prevented == old(self)@.risk_conflicts_prevented,
            final(self)@.execution_failures == old(self)@.execution_failures,
            old(self)@.unique_records() ==> final(self)@.unique_records(),
    {
        if is_blank(setup_id) {
            return Err(AuditError::InvalidRecord);
        }
        if self.terminal_record_exists(setup_id) {
            return Err(AuditError::DuplicateRecord);
        }
        let ghost before = self@;
        self.completed_trade_setup_ids.push(setup_id.to_owned());
        proof {
            assert(self@.completed_trade_setup_ids =~= before.completed_trade_setup_ids.push(
                setup_id@,
            ));
            if before.unique_records() {
                lemma_terminal_insert(before, self@, setup_id@);
            }
        }
        Ok(())
    }

    /// Records a rejected setup. A setup may have only one terminal record.
    pub fn record_rejected_setup(&mut self, record: RejectedSetupRecord<'_>) -> (r: Result<
        (),
        AuditError,
    >)
        ensures
            r == (if blank(record.setup_id@) {
                Err(AuditError::InvalidRecord)
            } else if old(self)@.terminal_ids().contains(record.setup_id@) {
                Err(AuditError::DuplicateRecord)
            } else {
                Ok(())
            }),
            final(self)@.rejected_setups == if r is Ok {
                old(self)@.rejected_setups.push((record.setup_id@, record.rejection_code))
            } else {
                old(self)@.rejected_setups
            },
            final(self)@.qualified_setup_ids == old(self)@.qualified_setup_ids,
            final(self)@.state_changes == old(self)@.state_changes,
            final(self)@.completed_trade_setup_ids == old(self)@.completed_trade_setup_ids,
            final(self)@.rule_compliance == old(self)@.rule_compliance,
            final(self)@.duplicate_signals_prevented == old(self)@.duplicate_signals_prevented,
            final(self)@.risk_conflicts_prevented == old(self)@.risk_conflicts_prevented,
            final(self)@.execution_failures == old(self)@.execution_failures,
            old(self)@.unique_records() ==> final(self)@.unique_records(),
    {
        if is_blank(record.setup_id) {
            return Err(AuditError::InvalidRecord);
        }
        if self.terminal_record_exists(record.setup_id) {
            return Err(AuditError::DuplicateRecord);
        }
        let ghost before = self@;
        self.rejected_setups.push(
            StoredRejectedSetupRecord {
                setup_id: record.setup_id.to_owned(),
                rejection_code: record.rejection_code,
            },
        );
        proof {
            assert(self@.rejected_setups =~= before.rejected_setups.push(
                (record.setup_id@, record.rejection_code),
            ));
            if before.unique_records() {
                lemma_terminal_insert(before, self@, record.setup_id@);
            }
        }
        Ok(())
    }

    pub fn record_rule_compliance(&mut self, compliant: bool)
        ensures
            final(self)@.rule_compliance == old(self)@.rule_compliance.push(compliant),
            final(self)@.qualified_setup_ids == old(self)@.qualified_setup_ids,
            final(self)@.state_changes == old(self)@.state_changes,
            final(self)@.completed_trade_setup_ids == old(self)@.completed_trade_setup_ids,
            final(self)@.rejected_setups == old(self)@.rejected_setups,
            final(self)@.duplicate_signals_prevented == old(self)@.duplicate_signals_prevented,
            final(self)@.risk_conflicts_prevented == old(self)@.risk_conflicts_prevented,
            final(self)@.execution_failures == old(self)@.execution_failures,
    {
        self.rule_compliance_observations.push(compliant);
    }

    /// Counts one prevented duplicate signal, saturating at the counter's maximum.
    pub fn record_duplicate_signal_prevented(&mut self)
        ensures
            final(self)@.duplicate_signals_prevented == if old(self)@.duplicate_signals_prevented
                == u64::MAX {
                u64::MAX
            } else {
                (old(self)@.duplicate_signals_prevented + 1) as u64
            },
            final(self)@.qualified_setup_ids == old(self)@.qualified_setup_ids,
            final(self)@.state_changes == old(self)@.state_changes,
            final(self)@.completed_trade_setup_ids == old(self)@.completed_trade_setup_ids,
            final(self)@.rejected_setups == old(self)@.rejected_setups,
            final(self)@.rule_compliance == old(self)@.rule_compliance,
            final(self)@.risk_conflicts_prevented == old(self)@.risk_conflicts_prevented,
            final(self)@.execution_failures == old(self)@.execution_failures,
    {
        self.duplicate_signals_prevented = self.duplicate_signals_prevented.saturating_add(1);
    }

    /// Counts one prevented risk conflict, saturating at the counter's maximum.
    pub fn record_risk_conflict_prevented(&mut self)
        ensures
            final(self)@.risk_conflicts_prevented == if old(self)@.risk_conflicts_prevented
                == u64::MAX {
                u64::MAX
            } else {
                (old(self)@.risk_conflicts_prevented + 1) as u64
            },
            final(self)@.qualified_setup_ids == old(self)@.qualified_setup_ids,
            final(self)@.state_changes == old(self)@.state_changes,
            final(self)@.completed_trade_setup_ids == old(self)@.completed_trade_setup_ids,
            final(self)@.rejected_setups == old(self)@.rejected_setups,
            final(self)@.rule_compliance == old(self)@.rule_compliance,
            final(self)@.duplicate_signals_prevented == old(self)@.duplicate_signals_prevented,
            final(self)@.execution_failures == old(self)@.execution_failures,
    {
        self.risk_conflicts_prevented = self.risk_conflicts_prevented.saturating_add(1);
    }

    /// Counts one execution failure, saturating at the counter's maximum.
    pub fn record_execution_failure(&mut self)
        ensures
            final(self)@.execution_failures == if old(self)@.execution_failures == u64::MAX {
                u64::MAX
            } else {
                (old(self)@.execution_failures + 1) as u64
            },
            final(self)@.qualified_setup_ids == old(self)@.qualified_setup_ids,
            final(self)@.state_changes == old(self)@.state_changes,
            final(self)@.completed_trade_setup_ids == old(self)@.completed_trade_setup_ids,
            final(self)@.rejected_setups == old(self)@.rejected_setups,
            final(self)@.rule_compliance == old(self)@.rule_compliance,
            final(self)@.duplicate_signals_prevented == old(self)@.duplicate_signals_prevented,
            final(self)@.risk_conflicts_prevented == old(self)@.risk_conflicts_prevented,
    {
        self.execution_failures = self.execution_failures.saturating_add(1);
    }

    #[must_use]
    pub fn state_changes(&self) -> (r: &[StateChangeRecord])
        ensures
            r@.map_values(|c: StateChangeRecord| state_change_view(c)) == self@.state_changes,
    {
        self.state_changes.as_slice()
    }

    #[must_use]
    pub fn rejected_setups(&self) -> (r: &[StoredRejectedSetupRecord])
        ensures
            r@.map_values(|c: StoredRejectedSetupRecord| rejected_view(c)) == self@.rejected_setups,
    {
        self.rejected_setups.as_slice()
    }

    #[must_use]
    pub fn rule_compliance_observations(&self) -> (r: &[bool])
        ensures
            r@ == self@.rule_compliance,
    {
        self.rule_compliance_observations.as_slice()
    }

    #[must_use]
    pub fn qualified_setups(&self) -> (r: u64)
        ensures
            r == self@.qualified_setup_ids.len(),
    {
        self.qualified_setup_ids.len() as u64
    }

    #[must_use]
    pub fn completed_trades(&self) -> (r: u64)
        ensures
            r == self@.completed_trade_setup_ids.len(),
    {
        self.completed_trade_setup_ids.len() as u64
    }

    #[must_use]
    pub fn rejected_setup_count(&self) -> (r: u64)
        ensures
            r == self@.rejected_setups.len(),
    {
        self.rejected_setups.len() as u64
    }

    #[must_use]
    pub fn duplicate_signals_prevented(&self) -> (r: u64)
        ensures
            r == self@.duplicate_signals_prevented,
    {
        self.duplicate_signals_prevented
    }

    #[must_use]
    pub fn risk_conflicts_prevented(&self) -> (r: u64)
        ensures
            r == self@.risk_conflicts_prevented,
    {
        self.risk_conflicts_prevented
    }

    #[must_use]
    pub fn execution_failures(&self) -> (r: u64)
        ensures
            r == self@.execution_failures,
    {
        self.execution_failures
    }
}

/// Adding a terminal record for a setup without one keeps terminal records unique.
proof fn lemma_terminal_insert(before: AuditJournalView, after: AuditJournalView, id: Seq<char>)
    requires
        before.unique_records(),
        !before.terminal_ids().contains(id),
        after.qualified_setup_ids == before.qualified_setup_ids,
        (after.completed_trade_setup_ids == before.completed_trade_setup_ids.push(id)
            && after.rejected_setups == before.rejected_setups) || (after.completed_trade_setup_ids
            == before.completed_trade_setup_ids && exists|c: RejectionCode|
            after.rejected_setups == before.rejected_setups.push((id, c))),
    ensures
        after.unique_records(),
{
    let t = before.terminal_ids();
    let u = after.terminal_ids();
    let nc = before.completed_trade_setup_ids.len();
    assert(u.len() == t.len() + 1);
    assert(u.to_multiset() =~= t.push(id).to_multiset()) by {
        broadcast use vstd::seq_lib::group_to_multiset_ensures;

        if after.completed_trade_setup_ids == before.completed_trade_setup_ids.push(id) {
            assert(forall|k: int| 0 <= k < nc ==> u[k] == t[k]);
            assert(u[nc as int] == id);
            assert(forall|k: int| nc < k < u.len() ==> u[k] == t[k - 1]);
            assert forall|x: Seq<char>| u.to_multiset().count(x) == t.push(id).to_multiset().count(x) by {
                lemma_terminal_swap_count(before, after, id, x);
            }
        } else {
            assert(u =~= t.push(id));
        }
    }
    lemma_push_unique(t, id);
    lemma_same_multiset_unique(t.push(id), u);
}

proof fn lemma_terminal_swap_count(before: AuditJournalView, after: AuditJournalView, id: Seq<char>, x: Seq<char>)
    requires
        after.completed_trade_setup_ids == before.completed_trade_setup_ids.push(id),
        after.rejected_setups == before.rejected_setups,
    ensures
        after.terminal_ids().to_multiset().count(x) == before.terminal_ids().push(id).to_multiset().count(x),
{
    broadcast use vstd::seq_lib::group_to_multiset_ensures;
    broadcast use vstd::multiset::group_multiset_axioms;

    let c = before.completed_trade_setup_ids;
    let rj = before.rejected_setups.map_values(|r: (Seq<char>, RejectionCode)| r.0);
    assert(after.terminal_ids() =~= c.push(id) + rj);
    assert(before.terminal_ids().push(id) =~= c + rj.push(id));
    vstd::seq_lib::lemma_multiset_commutative(c.push(id), rj);
    vstd::seq_lib::lemma_multiset_commutative(c, rj.push(id));
    assert(c.push(id).to_multiset() =~= c.to_multiset().insert(id));
    assert(rj.push(id).to_multiset() =~= rj.to_multiset().insert(id));
}

/// Two lists with the same elements and counts are equally free of duplicates.
proof fn lemma_same_multiset_unique(a: Seq<Seq<char>>, b: Seq<Seq<char>>)
    requires
        a.no_duplicates(),
        a.to_multiset() == b.to_multiset(),
        a.len() == b.len(),
    ensures
        b.no_duplicates(),
{
    broadcast use vstd::seq_lib::group_to_multiset_ensures;

    a.unique_seq_to_set();
    assert(a.to_set() =~= b.to_set()) by {
        a.to_multiset_ensures();
        b.to_multiset_ensures();
        assert forall|x: Seq<char>| a.contains(x) <==> b.contains(x) by {
            assert(a.to_multiset().count(x) == b.to_multiset().count(x));
            assert(a.contains(x) == (a.to_multiset().count(x) > 0));
            assert(b.contains(x) == (b.to_multiset().count(x) > 0));
        }
    }
    b.lemma_no_dup_set_cardinality();
}

/// Every recording step only extends the journal: nothing is ever removed or rewritten, and
/// a setup never ends up with two terminal records.
pub proof fn lemma_journal_append_only(before: AuditJournalView, after: AuditJournalView)
    requires
        after.qualified_setup_ids == before.qualified_setup_ids || after.qualified_setup_ids
            == before.qualified_setup_ids.push(after.qualified_setup_ids.last()),
        after.state_changes == before.state_changes || after.state_changes
            == before.state_changes.push(after.state_changes.last()),
        after.completed_trade_setup_ids == before.completed_trade_setup_ids
            || after.completed_trade_setup_ids == before.completed_trade_setup_ids.push(
            after.completed_trade_setup_ids.last(),
        ),
        after.rejected_setups == before.rejected_setups || after.rejected_setups
            == before.rejected_setups.push(after.rejected_setups.last()),
        after.rule_compliance == before.rule_compliance || after.rule_compliance
            == before.rule_compliance.push(after.rule_compliance.last()),
        before.duplicate_signals_prevented <= after.duplicate_signals_prevented,
        before.risk_conflicts_prevented <= after.risk_conflicts_prevented,
        before.execution_failures <= after.execution_failures,
    ensures
        before.extended_by(after),
{
}

} // verus!
