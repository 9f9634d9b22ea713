//! Setup ownership and the live execution tail of each setup: ENTRY_AUTHORIZED, ORDER_PENDING,
//! FILLED, POSITION_MANAGEMENT, or a missed terminal state. The entry guard that a reservation
//! carries is kept opaque.
use crate::broker_execution::SetupRegistryStatus;
use crate::promotion::opt_text;
use crate::rejection::RejectionCode;
use crate::setup_state::{SetupState, TerminalState};
use crate::text::{blank, is_blank, str_equal, texts};
use vstd::prelude::*;

verus! {

/// Observable content of one setup's record.
pub struct RecordView<G> {
    pub owner_agent_id: Seq<char>,
    pub consumed: bool,
    pub order_active_or_reserved: bool,
    pub instrument: Option<Seq<char>>,
    pub broker_order_id: Option<Seq<char>>,
    pub state: Option<SetupState>,
    pub pending_entry_guard: Option<G>,
}

impl<G> RecordView<G> {
    /// A fresh record owned by `owner`.
    pub open spec fn fresh(owner: Seq<char>) -> RecordView<G> {
        RecordView {
            owner_agent_id: owner,
            consumed: false,
            order_active_or_reserved: false,
            instrument: None,
            broker_order_id: None,
            state: None,
            pending_entry_guard: None,
        }
    }

    /// A consumed setup holds no reservation and is filled or managed; a reserved setup is
    /// entry-authorized or pending and carries its instrument and entry guard.
    pub open spec fn consistent(self) -> bool {
        &&& self.consumed ==> !self.order_active_or_reserved && (self.state == Some(
            SetupState::Filled,
        ) || self.state == Some(SetupState::PositionManagement))
        &&& self.order_active_or_reserved ==> (self.state == Some(SetupState::EntryAuthorized)
            || self.state == Some(SetupState::OrderPending)) && self.instrument is Some
            && self.pending_entry_guard is Some
    }
}

/// One setup's record.
#[derive(Debug, Clone, PartialEq)]
pub struct SetupRecord<G> {
    owner_agent_id: String,
    consumed: bool,
    order_active_or_reserved: bool,
    instrument: Option<String>,
    broker_order_id: Option<String>,
    state: Option<SetupState>,
    pending_entry_guard: Option<G>,
}

impl<G> View for SetupRecord<G> {
    type V = RecordView<G>;

    closed spec fn view(&self) -> RecordView<G> {
        RecordView {
            owner_agent_id: self.owner_agent_id@,
            consumed: self.consumed,
            order_active_or_reserved: self.order_active_or_reserved,
            instrument: opt_text(self.instrument),
            broker_order_id: opt_text(self.broker_order_id),
            state: self.state,
            pending_entry_guard: self.pending_entry_guard,
        }
    }
}

fn opt_as_str(o: &Option<String>) -> (r: Option<&str>)
    ensures
        match r {
            Some(s) => opt_text(*o) == Some(s@),
            None => o.is_none(),
        },
{
    match o {
        Some(s) => Some(s.as_str()),
        None => None,
    }
}

fn opt_clone(o: &Option<String>) -> (r: Option<String>)
    ensures
        opt_text(r) == opt_text(*o),
{
    match o {
        Some(s) => Some(s.clone()),
        None => None,
    }
}

impl<G> SetupRecord<G> {
    #[must_use]
    pub fn owner_agent_id(&self) -> (r: &str)
        ensures
            r@ == self@.owner_agent_id,
    {
        self.owner_agent_id.as_str()
    }

    #[must_use]
    pub fn consumed(&self) -> (r: bool)
        ensures
            r == self@.consumed,
    {
        self.consumed
    }

    #[must_use]
    pub fn order_active_or_reserved(&self) -> (r: bool)
        ensures
            r == self@.order_active_or_reserved,
    {
        self.order_active_or_reserved
    }

    #[must_use]
    pub fn instrument(&self) -> (r: Option<&str>)
        ensures
            match r {
                Some(s) => self@.instrument == Some(s@),
                None => self@.instrument is None,
            },
    {
        opt_as_str(&self.instrument)
    }

    #[must_use]
    pub fn broker_order_id(&self) -> (r: Option<&str>)
        ensures
            match r {
                Some(s) => self@.broker_order_id == Some(s@),
                None => self@.broker_order_id is None,
            },
    {
        opt_as_str(&self.broker_order_id)
    }

    #[must_use]
    pub fn state(&self) -> (r: Option<SetupState>)
        ensures
            r == self@.state,
    {
        self.state
    }

    #[must_use]
    pub fn pending_entry_guard(&self) -> (r: Option<&G>)
        ensures
            match r {
                Some(g) => self@.pending_entry_guard == Some(*g),
                None => self@.pending_entry_guard is None,
            },
    {
        match &self.pending_entry_guard {
            Some(g) => Some(g),
            None => None,
        }
    }
}

/// The effect of one registry operation on one record: the owner never changes, a consumed
/// setup stays consumed, and the lifecycle state stays put, moves to exactly its successor,
/// enters ENTRY_AUTHORIZED from a sealed reconfirmation, or ends as MISSED.
pub open spec fn record_step<G>(before: RecordView<G>, after: RecordView<G>) -> bool {
    &&& after.owner_agent_id == before.owner_agent_id
    &&& before.consumed ==> after.consumed
    &&& {
        ||| after.state == before.state
        ||| before.state is None && after.state == Some(SetupState::EntryAuthorized)
        ||| before.state matches Some(s) && after.state is Some && after.state == s.successor()
        ||| before.state == Some(SetupState::OrderPending) && after.state == Some(
            SetupState::Terminal(TerminalState::Missed),
        )
    }
}

/// The effect of one registry operation: setups are never removed, and every record steps.
pub open spec fn registry_step<G>(
    before: Map<Seq<char>, RecordView<G>>,
    after: Map<Seq<char>, RecordView<G>>,
) -> bool {
    &&& forall|k: Seq<char>| #[trigger] before.dom().contains(k) ==> after.dom().contains(k)
    &&& forall|k: Seq<char>|
        #[trigger] before.dom().contains(k) ==> record_step(before[k], after[k])
}

/// A lifecycle state never moves back: once set it stays set, a live state moves only to a
/// later live state or to a terminal state, and a terminal state never changes.
pub open spec fn state_forward(before: Option<SetupState>, after: Option<SetupState>) -> bool {
    match (before, after) {
        (None, _) => true,
        (Some(_), None) => false,
        (Some(b), Some(a)) => b == a || match (b.rank(), a.rank()) {
            (Some(rb), Some(ra)) => rb < ra,
            (Some(_), None) => true,
            (None, _) => false,
        },
    }
}

/// Any number of registry operations on one record: the owner never changes, a consumed setup
/// stays consumed, and the state only moves forward.
pub open spec fn record_progress<G>(before: RecordView<G>, after: RecordView<G>) -> bool {
    &&& after.owner_agent_id == before.owner_agent_id
    &&& before.consumed ==> after.consumed
    &&& state_forward(before.state, after.state)
}

/// Any number of registry operations: setups are never removed, and every record progresses.
pub open spec fn registry_progress<G>(
    before: Map<Seq<char>, RecordView<G>>,
    after: Map<Seq<char>, RecordView<G>>,
) -> bool {
    &&& forall|k: Seq<char>| #[trigger] before.dom().contains(k) ==> after.dom().contains(k)
    &&& forall|k: Seq<char>|
        #[trigger] before.dom().contains(k) ==> record_progress(before[k], after[k])
}

/// One registry operation is progress, and progress followed by progress is progress.
pub proof fn lemma_registry_progress<G>(
    a: Map<Seq<char>, RecordView<G>>,
    b: Map<Seq<char>, RecordView<G>>,
    c: Map<Seq<char>, RecordView<G>>,
)
    ensures
        registry_step(a, b) ==> registry_progress(a, b),
        registry_progress(a, b) && registry_progress(b, c) ==> registry_progress(a, c),
{
    if registry_step(a, b) {
        assert forall|k: Seq<char>| #[trigger] a.dom().contains(k) implies record_progress(
            a[k],
            b[k],
        ) by {
            if let Some(s) = a[k].state {
                lemma_successor_ranks_higher(s);
            }
        }
    }
}

proof fn lemma_successor_ranks_higher(s: SetupState)
    ensures
        s.successor() matches Some(t) ==> (s.rank() matches Some(rs) && t.rank() == Some(
            (rs + 1) as nat,
        )),
{
}

/// Registry of setups and their execution records, keyed by setup identifier.
#[derive(Debug, Default)]
pub struct SetupRegistry<G> {
    ids: Vec<String>,
    records: Vec<SetupRecord<G>>,
}

impl<G> SetupRegistry<G> {
    /// Identifiers are unique, every identifier has one record, and every record is consistent.
    pub closed spec fn wf(&self) -> bool {
        &&& self.ids@.len() == self.records@.len()
        &&& texts(self.ids@).no_duplicates()
        &&& forall|i: int| 0 <= i < self.records@.len() ==> (#[trigger] self.records@[i])@.consistent()
    }

    closed spec fn index_of(&self, k: Seq<char>) -> int {
        choose|i: int| 0 <= i < self.ids@.len() && self.ids@[i]@ == k
    }
}

impl<G> View for SetupRegistry<G> {
    type V = Map<Seq<char>, RecordView<G>>;

    closed spec fn view(&self) -> Map<Seq<char>, RecordView<G>> {
        Map::new(
            |k: Seq<char>| texts(self.ids@).contains(k),
            |k: Seq<char>| self.records@[self.index_of(k)]@,
        )
    }
}

impl<G> SetupRegistry<G> {
    proof fn lemma_lookup(&self, i: int)
        requires
            self.wf(),
            0 <= i < self.ids@.len(),
        ensures
            self@.dom().contains(self.ids@[i]@),
            self.index_of(self.ids@[i]@) == i,
            self@[self.ids@[i]@] == self.records@[i]@,
    {
        let k = self.ids@[i]@;
        assert(texts(self.ids@)[i] == k);
        let j = self.index_of(k);
        assert(texts(self.ids@)[j] == texts(self.ids@)[i]);
    }

    /// Every record of a well-formed registry is consistent.
    pub proof fn lemma_records_consistent(&self, k: Seq<char>)
        requires
            self.wf(),
            self@.dom().contains(k),
        ensures
            self@[k].consistent(),
    {
        let j = self.index_of(k);
        assert(texts(self.ids@).contains(k));
        let w = choose|w: int| 0 <= w < texts(self.ids@).len() && texts(self.ids@)[w] == k;
        assert(self.ids@[w]@ == k);
        assert(0 <= j < self.records@.len());
    }

    pub fn new() -> (r: Self)
        ensures
            r.wf(),
            r@ == Map::<Seq<char>, RecordView<G>>::empty(),
    {
        let r = SetupRegistry { ids: Vec::new(), records: Vec::new() };
        proof {
            assert(texts(r.ids@) =~= Seq::<Seq<char>>::empty());
            assert(r@ =~= Map::<Seq<char>, RecordView<G>>::empty());
        }
        r
    }

    fn position(&self, setup_id: &str) -> (r: Option<usize>)
        requires
            self.wf(),
        ensures
            match r {
                Some(i) => i < self.ids@.len() && self.ids@[i as int]@ == setup_id@
                    && self@.dom().contains(setup_id@) && self@[setup_id@]
                    == self.records@[i as int]@,
                None => !self@.dom().contains(setup_id@),
            },
    {
        let mut i: usize = 0;
        while i < self.ids.len()
            invariant
                self.wf(),
                i <= self.ids@.len(),
                forall|j: int| 0 <= j < i ==> self.ids@[j]@ != setup_id@,
            decreases self.ids@.len() - i,
        {
            if str_equal(self.ids[i].as_str(), setup_id) {
                proof {
                    self.lemma_lookup(i as int);
                }
                return Some(i);
            }
            i = i + 1;
        }
        proof {
            if texts(self.ids@).contains(setup_id@) {
                let w = choose|w: int|
                    0 <= w < texts(self.ids@).len() && texts(self.ids@)[w] == setup_id@;
                assert(self.ids@[w]@ == setup_id@);
            }
        }
        None
    }

    proof fn lemma_update_view(before: &Self, after: &Self, i: int, record: SetupRecord<G>)
        requires
            before.wf(),
            0 <= i < before.ids@.len(),
            record@.consistent(),
            after.ids@ == before.ids@,
            after.records@ == before.records@.update(i, record),
        ensures
            after.wf(),
            after@ == before@.insert(before.ids@[i]@, record@),
    {
        before.lemma_lookup(i);
        let key = before.ids@[i]@;
        assert forall|j: int| 0 <= j < after.records@.len() implies (#[trigger] after.records@[j])@.consistent() by {
            if j != i {
                assert(after.records@[j] == before.records@[j]);
            }
        }
        assert forall|k: Seq<char>| #[trigger] after@.dom().contains(k) <==> before@.dom().insert(
            key,
        ).contains(k) by {}
        assert forall|k: Seq<char>| after@.dom().contains(k) implies #[trigger] after@[k]
            == before@.insert(key, record@)[k] by {
            let j = after.index_of(k);
            assert(j == before.index_of(k));
            if k == key {
                after.lemma_lookup(i);
            } else {
                let w = choose|w: int| 0 <= w < texts(after.ids@).len() && texts(after.ids@)[w] == k;
                assert(after.ids@[w]@ == k);
                after.lemma_lookup(w);
                before.lemma_lookup(w);
                assert(w != i);
            }
        }
        assert(after@ =~= before@.insert(key, record@));
    }

    /// Replaces the record at position `i`, returning the previous one.
    fn swap_record(&mut self, i: usize, record: SetupRecord<G>) -> (r: SetupRecord<G>)
        requires
            old(self).wf(),
            i < old(self).ids@.len(),
            record@.consistent(),
        ensures
            final(self).wf(),
            final(self)@ == old(self)@.insert(old(self).ids@[i as int]@, record@),
            final(self).ids@ == old(self).ids@,
            r == old(self).records@[i as int],
    {
        let ghost before = *self;
        let previous = self.records.remove(i);
        self.records.insert(i, record);
        proof {
            assert(self.records@ =~= before.records@.update(i as int, record));
            Self::lemma_update_view(&before, self, i as int, record);
        }
        previous
    }

    /// Takes the record at position `i` out, leaving an empty record in its place.
    fn take_record(&mut self, i: usize) -> (r: SetupRecord<G>)
        requires
            old(self).wf(),
            i < old(self).ids@.len(),
        ensures
            final(self).wf(),
            final(self).ids@ == old(self).ids@,
            r == old(self).records@[i as int],
            r@ == old(self)@[old(self).ids@[i as int]@],
            forall|k: Seq<char>|
                k != old(self).ids@[i as int]@ ==> (#[trigger] final(self)@.dom().contains(k)
                    == old(self)@.dom().contains(k) && final(self)@[k] == old(self)@[k]),
            final(self)@.dom() == old(self)@.dom(),
    {
        proof {
            self.lemma_lookup(i as int);
        }
        let placeholder = SetupRecord {
            owner_agent_id: String::new(),
            consumed: false,
            order_active_or_reserved: false,
            instrument: None,
            broker_order_id: None,
            state: None,
            pending_entry_guard: None,
        };
        let ghost key = self.ids@[i as int]@;
        let r = self.swap_record(i, placeholder);
        proof {
            assert(self@.dom() =~= old(self)@.dom().insert(key));
        }
        r
    }

    /// Registers a setup for its owner. Blank identifiers are process errors; a known setup is a
    /// duplicate.
    pub fn register_setup(&mut self, setup_id: &str, owner_agent_id: &str) -> (r: Result<
        (),
        RejectionCode,
    >)
        requires
            old(self).wf(),
        ensures
            final(self).wf(),
            r == (if blank(setup_id@) || blank(owner_agent_id@) {
                Err(RejectionCode::ProcessError)
            } else if old(self)@.dom().contains(setup_id@) {
                Err(RejectionCode::DuplicateSetup)
            } else {
                Ok(())
            }),
            r is Ok ==> final(self)@ == old(self)@.insert(
                setup_id@,
                RecordView::fresh(owner_agent_id@),
            ),
            r is Err ==> final(self)@ == old(self)@,
    {
        if is_blank(setup_id) || is_blank(owner_agent_id) {
            return Err(RejectionCode::ProcessError);
        }
        if self.position(setup_id).is_some() {
            return Err(RejectionCode::DuplicateSetup);
        }
        let ghost before = *self;
        self.ids.push(setup_id.to_owned());
        self.records.push(
            SetupRecord {
                owner_agent_id: owner_agent_id.to_owned(),
                consumed: false,
                order_active_or_reserved: false,
                instrument: None,
                broker_order_id: None,
                state: None,
                pending_entry_guard: None,
            },
        );
        proof {
            let n = before.ids@.len();
            assert(texts(self.ids@) =~= texts(before.ids@).push(setup_id@));
            assert(!texts(before.ids@).contains(setup_id@));
            assert(texts(self.ids@).no_duplicates()) by {
                assert forall|a: int, b: int|
                    0 <= a < texts(self.ids@).len() && 0 <= b < texts(self.ids@).len() && a != b
                    implies texts(self.ids@)[a] != texts(self.ids@)[b] by {
                    if a < n && b < n {
                        assert(texts(before.ids@)[a] == texts(self.ids@)[a]);
                        assert(texts(before.ids@)[b] == texts(self.ids@)[b]);
                    } else if a < n {
                        assert(texts(before.ids@)[a] == texts(self.ids@)[a]);
                    } else if b < n {
                        assert(texts(before.ids@)[b] == texts(self.ids@)[b]);
                    }
                }
            }
            assert forall|i: int| 0 <= i < self.records@.len() implies (#[trigger] self.records@[i])@.consistent() by {
                if i < n {
                    assert(self.records@[i] == before.records@[i]);
                }
            }
            let fresh = RecordView::<G>::fresh(owner_agent_id@);
            assert forall|k: Seq<char>| self@.dom().contains(k) implies #[trigger] self@[k]
                == before@.insert(setup_id@, fresh)[k] by {
                let w = choose|w: int| 0 <= w < texts(self.ids@).len() && texts(self.ids@)[w] == k;
                assert(self.ids@[w]@ == k);
                self.lemma_lookup(w);
                if w < n {
                    assert(self.ids@[w] == before.ids@[w]);
                    before.lemma_lookup(w);
                    assert(k != setup_id@);
                } else {
                    assert(k == setup_id@);
                }
            }
            assert forall|k: Seq<char>| #[trigger] self@.dom().contains(k) <==> before@.insert(
                setup_id@,
                fresh,
            ).dom().contains(k) by {
                if texts(before.ids@).contains(k) {
                    let w = choose|w: int|
                        0 <= w < texts(before.ids@).len() && texts(before.ids@)[w] == k;
                    assert(texts(self.ids@)[w] == k);
                }
                if texts(self.ids@).contains(k) {
                    let w = choose|w: int| 0 <= w < texts(self.ids@).len() && texts(self.ids@)[w] == k;
                    if w < n {
                        assert(texts(before.ids@)[w] == k);
                    }
                }
                if k == setup_id@ {
                    assert(texts(self.ids@)[n as int] == k);
                }
            }
            assert(self@ =~= before@.insert(setup_id@, fresh));
        }
        Ok(())
    }

    /// Status of a registered setup.
    #[must_use]
    pub fn status(&self, setup_id: &str) -> (r: Option<SetupRegistryStatus>)
        requires
            self.wf(),
        ensures
            r is None <==> !self@.dom().contains(setup_id@),
            r matches Some(s) ==> {
                &&& s.owner_agent_id@ == self@[setup_id@].owner_agent_id
                &&& s.consumed == self@[setup_id@].consumed
                &&& s.order_active_or_reserved == self@[setup_id@].order_active_or_reserved
                &&& opt_text(s.broker_order_id) == self@[setup_id@].broker_order_id
                &&& s.state == self@[setup_id@].state
            },
    {
        match self.position(setup_id) {
            None => None,
            Some(i) => {
                let record = &self.records[i];
                Some(
                    SetupRegistryStatus {
                        owner_agent_id: record.owner_agent_id.clone(),
                        consumed: record.consumed,
                        order_active_or_reserved: record.order_active_or_reserved,
                        broker_order_id: opt_clone(&record.broker_order_id),
                        state: record.state,
                    },
                )
            },
        }
    }

    /// The record of a setup.
    #[must_use]
    pub fn execution_record(&self, setup_id: &str) -> (r: Option<&SetupRecord<G>>)
        requires
            self.wf(),
        ensures
            match r {
                Some(record) => self@.dom().contains(setup_id@) && record@ == self@[setup_id@],
                None => !self@.dom().contains(setup_id@),
            },
    {
        match self.position(setup_id) {
            None => None,
            Some(i) => Some(&self.records[i]),
        }
    }

    /// Reserves a setup for submission by its owner. A sealed setup enters ENTRY_AUTHORIZED
    /// from its final reconfirmation; a setup already ENTRY_AUTHORIZED may be reserved again
    /// by the same owner while no order is active.
    pub fn reserve_for_submission(
        &mut self,
        setup_id: &str,
        owner_agent_id: &str,
        proposal_setup_id: &str,
        proposal_instrument: &str,
        guard: G,
    ) -> (r: Result<(), RejectionCode>)
        requires
            old(self).wf(),
        ensures
            final(self).wf(),
            r == reserve_result(old(self)@, setup_id@, owner_agent_id@, proposal_setup_id@, proposal_instrument@),
            r is Ok ==> final(self)@ == old(self)@.insert(
                setup_id@,
                RecordView {
                    order_active_or_reserved: true,
                    instrument: Some(proposal_instrument@),
                    pending_entry_guard: Some(guard),
                    state: Some(SetupState::EntryAuthorized),
                    ..old(self)@[setup_id@]
                },
            ),
            r is Err ==> final(self)@ == old(self)@,
            registry_step(old(self)@, final(self)@),
    {
        let i = match self.position(setup_id) {
            None => {
                return Err(RejectionCode::ProcessError);
            },
            Some(i) => i,
        };
        {
            let record = &self.records[i];
            if !str_equal(record.owner_agent_id.as_str(), owner_agent_id) || record.consumed
                || record.order_active_or_reserved {
                return Err(RejectionCode::DuplicateSetup);
            }
            if is_blank(proposal_instrument) || !str_equal(proposal_setup_id, setup_id) {
                return Err(RejectionCode::ProcessError);
            }
        }
        let next_state = match self.records[i].state {
            None => match SetupState::FinalReconfirmation.advance(SetupState::EntryAuthorized) {
                Ok(state) => state,
                Err(_) => {
                    return Err(RejectionCode::ProcessError);
                },
            },
            Some(SetupState::EntryAuthorized) => SetupState::EntryAuthorized,
            Some(_) => {
                return Err(RejectionCode::DuplicateSetup);
            },
        };
        let mut record = self.take_record(i);
        record.state = Some(next_state);
        record.order_active_or_reserved = true;
        record.instrument = Some(proposal_instrument.to_owned());
        record.pending_entry_guard = Some(guard);
        let _ = self.swap_record(i, record);
        Ok(())
    }

    /// Clears an untransmitted reservation; a consumed setup is left as it is.
    pub fn clear_reservation(&mut self, setup_id: &str)
        requires
            old(self).wf(),
        ensures
            final(self).wf(),
            (!old(self)@.dom().contains(setup_id@) || old(self)@[setup_id@].consumed) ==> final(self)@ == old(self)@,
            (old(self)@.dom().contains(setup_id@) && !old(self)@[setup_id@].consumed) ==> final(self)@ == old(self)@.insert(
                setup_id@,
                RecordView {
                    order_active_or_reserved: false,
                    instrument: None,
                    broker_order_id: None,
                    pending_entry_guard: None,
                    ..old(self)@[setup_id@]
                },
            ),
            registry_step(old(self)@, final(self)@),
    {
        let i = match self.position(setup_id) {
            None => {
                return;
            },
            Some(i) => i,
        };
        if self.records[i].consumed {
            return;
        }
        let mut record = self.take_record(i);
        record.order_active_or_reserved = false;
        record.instrument = None;
        record.broker_order_id = None;
        record.pending_entry_guard = None;
        let _ = self.swap_record(i, record);
    }

    /// Records the broker order of a reserved, entry-authorized setup: ORDER_PENDING.
    pub fn record_pending_order(&mut self, setup_id: &str, broker_order_id: &str) -> (r: Result<
        (),
        RejectionCode,
    >)
        requires
            old(self).wf(),
        ensures
            final(self).wf(),
            r == pending_order_result(old(self)@, setup_id@, broker_order_id@),
            r is Ok ==> final(self)@ == with_pending_order(old(self)@, setup_id@, broker_order_id@),
            r is Err ==> final(self)@ == old(self)@,
            registry_step(old(self)@, final(self)@),
    {
        let i = match self.position(setup_id) {
            None => {
                return Err(RejectionCode::ProcessError);
            },
            Some(i) => i,
        };
        {
            let record = &self.records[i];
            if !record.order_active_or_reserved || record.consumed || is_blank(broker_order_id)
                || record.state != Some(SetupState::EntryAuthorized)
                || record.pending_entry_guard.is_none() {
                return Err(RejectionCode::ProcessError);
            }
        }
        let next_state = match SetupState::EntryAuthorized.advance(SetupState::OrderPending) {
            Ok(state) => state,
            Err(_) => {
                return Err(RejectionCode::ProcessError);
            },
        };
        let mut record = self.take_record(i);
        record.state = Some(next_state);
        record.broker_order_id = Some(broker_order_id.to_owned());
        let _ = self.swap_record(i, record);
        Ok(())
    }

    /// A pending order filled: FILLED, and the setup is consumed for good.
    pub fn mark_filled_consumed(&mut self, setup_id: &str) -> (r: Result<(), RejectionCode>)
        requires
            old(self).wf(),
        ensures
            final(self).wf(),
            r == fill_result(old(self)@, setup_id@),
            r is Ok ==> final(self)@ == with_fill(old(self)@, setup_id@),
            r is Err ==> final(self)@ == old(self)@,
            registry_step(old(self)@, final(self)@),
    {
        let i = match self.position(setup_id) {
            None => {
                return Err(RejectionCode::ProcessError);
            },
            Some(i) => i,
        };
        if self.records[i].consumed {
            return Err(RejectionCode::DuplicateSetup);
        }
        if !self.records[i].order_active_or_reserved || self.records[i].state != Some(
            SetupState::OrderPending,
        ) {
            return Err(RejectionCode::ProcessError);
        }
        let next_state = match SetupState::OrderPending.advance(SetupState::Filled) {
            Ok(state) => state,
            Err(_) => {
                return Err(RejectionCode::ProcessError);
            },
        };
        let mut record = self.take_record(i);
        record.state = Some(next_state);
        record.consumed = true;
        record.order_active_or_reserved = false;
        record.pending_entry_guard = None;
        let _ = self.swap_record(i, record);
        Ok(())
    }

    /// A pending order was confirmed cancelled: the setup ends MISSED.
    pub fn mark_missed(&mut self, setup_id: &str) -> (r: Result<(), RejectionCode>)
        requires
            old(self).wf(),
        ensures
            final(self).wf(),
            r == missed_result(old(self)@, setup_id@),
            r is Ok ==> final(self)@ == with_missed(old(self)@, setup_id@),
            r is Err ==> final(self)@ == old(self)@,
            registry_step(old(self)@, final(self)@),
    {
        let i = match self.position(setup_id) {
            None => {
                return Err(RejectionCode::ProcessError);
            },
            Some(i) => i,
        };
        {
            let record = &self.records[i];
            if record.consumed || !record.order_active_or_reserved
                || record.broker_order_id.is_none() || record.state != Some(
                SetupState::OrderPending,
            ) {
                return Err(RejectionCode::ProcessError);
            }
        }
        let mut record = self.take_record(i);
        record.order_active_or_reserved = false;
        record.pending_entry_guard = None;
        record.state = Some(SetupState::OrderPending.terminate(TerminalState::Missed));
        let _ = self.swap_record(i, record);
        Ok(())
    }

    /// A filled setup whose protection is confirmed enters POSITION_MANAGEMENT.
    pub fn mark_position_management(&mut self, setup_id: &str) -> (r: Result<(), RejectionCode>)
        requires
            old(self).wf(),
        ensures
            final(self).wf(),
            r == position_management_result(old(self)@, setup_id@),
            r is Ok ==> final(self)@ == with_position_management(old(self)@, setup_id@),
            r is Err ==> final(self)@ == old(self)@,
            registry_step(old(self)@, final(self)@),
    {
        let i = match self.position(setup_id) {
            None => {
                return Err(RejectionCode::ProcessError);
            },
            Some(i) => i,
        };
        {
            let record = &self.records[i];
            if !record.consumed || record.order_active_or_reserved
                || record.broker_order_id.is_none() || record.state != Some(SetupState::Filled) {
                return Err(RejectionCode::ProcessError);
            }
        }
        let next_state = match SetupState::Filled.advance(SetupState::PositionManagement) {
            Ok(state) => state,
            Err(_) => {
                return Err(RejectionCode::ProcessError);
            },
        };
        let mut record = self.take_record(i);
        record.state = Some(next_state);
        let _ = self.swap_record(i, record);
        Ok(())
    }
}

/// The outcome of reserving a setup for submission.
pub open spec fn reserve_result<G>(
    registry: Map<Seq<char>, RecordView<G>>,
    setup_id: Seq<char>,
    owner_agent_id: Seq<char>,
    proposal_setup_id: Seq<char>,
    proposal_instrument: Seq<char>,
) -> Result<(), RejectionCode> {
    if !registry.dom().contains(setup_id) {
        Err(RejectionCode::ProcessError)
    } else if registry[setup_id].owner_agent_id != owner_agent_id || registry[setup_id].consumed
        || registry[setup_id].order_active_or_reserved {
        Err(RejectionCode::DuplicateSetup)
    } else if blank(proposal_instrument) || proposal_setup_id != setup_id {
        Err(RejectionCode::ProcessError)
    } else {
        match registry[setup_id].state {
            None => Ok(()),
            Some(SetupState::EntryAuthorized) => Ok(()),
            Some(_) => Err(RejectionCode::DuplicateSetup),
        }
    }
}

/// The outcome of recording a setup's broker order.
pub open spec fn pending_order_result<G>(
    registry: Map<Seq<char>, RecordView<G>>,
    setup_id: Seq<char>,
    broker_order_id: Seq<char>,
) -> Result<(), RejectionCode> {
    if !registry.dom().contains(setup_id) {
        Err(RejectionCode::ProcessError)
    } else if !registry[setup_id].order_active_or_reserved || registry[setup_id].consumed || blank(
        broker_order_id,
    ) || registry[setup_id].state != Some(SetupState::EntryAuthorized)
        || registry[setup_id].pending_entry_guard is None {
        Err(RejectionCode::ProcessError)
    } else {
        Ok(())
    }
}

/// The registry once a setup's broker order is recorded: ORDER_PENDING with that order.
pub open spec fn with_pending_order<G>(
    registry: Map<Seq<char>, RecordView<G>>,
    setup_id: Seq<char>,
    broker_order_id: Seq<char>,
) -> Map<Seq<char>, RecordView<G>> {
    registry.insert(
        setup_id,
        RecordView {
            state: Some(SetupState::OrderPending),
            broker_order_id: Some(broker_order_id),
            ..registry[setup_id]
        },
    )
}

/// The outcome of marking a setup's pending order filled.
pub open spec fn fill_result<G>(registry: Map<Seq<char>, RecordView<G>>, setup_id: Seq<char>) -> Result<
    (),
    RejectionCode,
> {
    if !registry.dom().contains(setup_id) {
        Err(RejectionCode::ProcessError)
    } else if registry[setup_id].consumed {
        Err(RejectionCode::DuplicateSetup)
    } else if !registry[setup_id].order_active_or_reserved || registry[setup_id].state != Some(
        SetupState::OrderPending,
    ) {
        Err(RejectionCode::ProcessError)
    } else {
        Ok(())
    }
}

/// The registry once a setup's order filled: FILLED, consumed, with nothing reserved.
pub open spec fn with_fill<G>(registry: Map<Seq<char>, RecordView<G>>, setup_id: Seq<char>) -> Map<
    Seq<char>,
    RecordView<G>,
> {
    registry.insert(
        setup_id,
        RecordView {
            state: Some(SetupState::Filled),
            consumed: true,
            order_active_or_reserved: false,
            pending_entry_guard: None,
            ..registry[setup_id]
        },
    )
}

/// The outcome of marking a setup's pending order missed.
pub open spec fn missed_result<G>(registry: Map<Seq<char>, RecordView<G>>, setup_id: Seq<char>) -> Result<
    (),
    RejectionCode,
> {
    if !registry.dom().contains(setup_id) {
        Err(RejectionCode::ProcessError)
    } else if registry[setup_id].consumed || !registry[setup_id].order_active_or_reserved
        || registry[setup_id].broker_order_id is None || registry[setup_id].state != Some(
        SetupState::OrderPending,
    ) {
        Err(RejectionCode::ProcessError)
    } else {
        Ok(())
    }
}

/// The registry once a setup's pending order was confirmed cancelled: MISSED, nothing reserved.
pub open spec fn with_missed<G>(registry: Map<Seq<char>, RecordView<G>>, setup_id: Seq<char>) -> Map<
    Seq<char>,
    RecordView<G>,
> {
    registry.insert(
        setup_id,
        RecordView {
            order_active_or_reserved: false,
            pending_entry_guard: None,
            state: Some(SetupState::Terminal(TerminalState::Missed)),
            ..registry[setup_id]
        },
    )
}

/// The outcome of moving a filled setup into position management.
pub open spec fn position_management_result<G>(
    registry: Map<Seq<char>, RecordView<G>>,
    setup_id: Seq<char>,
) -> Result<(), RejectionCode> {
    if !registry.dom().contains(setup_id) {
        Err(RejectionCode::ProcessError)
    } else if !registry[setup_id].consumed || registry[setup_id].order_active_or_reserved
        || registry[setup_id].broker_order_id is None || registry[setup_id].state != Some(
        SetupState::Filled,
    ) {
        Err(RejectionCode::ProcessError)
    } else {
        Ok(())
    }
}

/// The registry once a filled setup is under position management.
pub open spec fn with_position_management<G>(
    registry: Map<Seq<char>, RecordView<G>>,
    setup_id: Seq<char>,
) -> Map<Seq<char>, RecordView<G>> {
    registry.insert(
        setup_id,
        RecordView { state: Some(SetupState::PositionManagement), ..registry[setup_id] },
    )
}

} // verus!
