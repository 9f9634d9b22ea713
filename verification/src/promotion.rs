//! The strategy-change promotion sequence: hypothesis, backtest, out-of-sample,
//! paper/shadow, human approval, new version. Evidence and ordering only; nothing here can
//! activate a live strategy version or change a production rule.
use crate::text::{blank, is_blank, str_equal};
use crate::truth::Condition;
use crate::validation::{ReplayReport, ValidationPhase};
use vstd::prelude::*;

verus! {

#[derive(Debug, Clone, Copy, PartialEq, Eq, Structural)]
pub enum PromotionState {
    HypothesisRecorded,
    BacktestRecorded,
    OutOfSampleRecorded,
    PaperShadowRecorded,
    Approved,
    Rejected,
    VersionRecorded,
}

#[derive(Debug, Clone, Copy, PartialEq, Eq, Structural)]
pub enum PaperShadowMode {
    Paper,
    Shadow,
}

#[derive(Debug, Clone, Copy, PartialEq, Eq, Structural)]
pub enum PromotionError {
    MissingChangeId,
    MissingBaseVersion,
    MissingHypothesis,
    MissingEvidenceId,
    WrongStage,
    WrongValidationPhase,
    InvalidReplayReport,
    ApprovalUnknown,
    ProposalRejected,
    MissingNewVersion,
    NewVersionMatchesBase,
}

/// How far along the sequence a state is.
pub open spec fn stage(state: PromotionState) -> nat {
    match state {
        PromotionState::HypothesisRecorded => 0,
        PromotionState::BacktestRecorded => 1,
        PromotionState::OutOfSampleRecorded => 2,
        PromotionState::PaperShadowRecorded => 3,
        PromotionState::Approved => 4,
        PromotionState::Rejected => 4,
        PromotionState::VersionRecorded => 5,
    }
}

/// Observable content of a promotion record.
pub struct PromotionView {
    pub change_id: Seq<char>,
    pub base_strategy_version: Seq<char>,
    pub hypothesis: Seq<char>,
    pub state: PromotionState,
    pub backtest_evidence_id: Option<Seq<char>>,
    pub out_of_sample_evidence_id: Option<Seq<char>>,
    pub paper_shadow_evidence_id: Option<Seq<char>>,
    pub paper_shadow_mode: Option<PaperShadowMode>,
    pub new_strategy_version: Option<Seq<char>>,
}

pub open spec fn present(id: Option<Seq<char>>) -> bool {
    id matches Some(s) && !blank(s)
}

impl PromotionView {
    /// Identity is non-blank, evidence is present exactly for the stages reached, and a
    /// recorded version differs from the base version.
    pub open spec fn evidence_consistent(self) -> bool {
        &&& !blank(self.change_id)
        &&& !blank(self.base_strategy_version)
        &&& !blank(self.hypothesis)
        &&& (self.backtest_evidence_id is Some <==> stage(self.state) >= 1)
        &&& (self.backtest_evidence_id is Some ==> present(self.backtest_evidence_id))
        &&& (self.out_of_sample_evidence_id is Some <==> stage(self.state) >= 2)
        &&& (self.out_of_sample_evidence_id is Some ==> present(self.out_of_sample_evidence_id))
        &&& (self.paper_shadow_evidence_id is Some <==> stage(self.state) >= 3)
        &&& (self.paper_shadow_evidence_id is Some ==> present(self.paper_shadow_evidence_id))
        &&& (self.paper_shadow_mode is Some <==> stage(self.state) >= 3)
        &&& (self.new_strategy_version is Some <==> self.state == PromotionState::VersionRecorded)
        &&& (self.new_strategy_version matches Some(v) ==> !blank(v) && v
            != self.base_strategy_version)
    }

    /// The record is unchanged.
    pub open spec fn same(self, other: PromotionView) -> bool {
        &&& self.change_id == other.change_id
        &&& self.base_strategy_version == other.base_strategy_version
        &&& self.hypothesis == other.hypothesis
        &&& self.state == other.state
        &&& self.backtest_evidence_id == other.backtest_evidence_id
        &&& self.out_of_sample_evidence_id == other.out_of_sample_evidence_id
        &&& self.paper_shadow_evidence_id == other.paper_shadow_evidence_id
        &&& self.paper_shadow_mode == other.paper_shadow_mode
        &&& self.new_strategy_version == other.new_strategy_version
    }
}

/// Strategy-change evidence coordinator. It proves ordering and evidence presence only.
#[derive(Debug, Clone, PartialEq, Eq)]
pub struct StrategyChangePromotion {
    change_id: String,
    base_strategy_version: String,
    hypothesis: String,
    state: PromotionState,
    backtest_evidence_id: Option<String>,
    out_of_sample_evidence_id: Option<String>,
    paper_shadow_evidence_id: Option<String>,
    paper_shadow_mode: Option<PaperShadowMode>,
    new_strategy_version: Option<String>,
}

pub open spec fn opt_text(o: Option<String>) -> Option<Seq<char>> {
    match o {
        Some(s) => Some(s@),
        None => None,
    }
}

fn opt_str(o: &Option<String>) -> (r: Option<&str>)
    ensures
        match r {
            Some(s) => opt_text(*o) == Some(s@),
            None => o.is_none(),
        },
{
    match o {
        Some(s) => Some(s.as_str()),
        None => None,
    }
}

/// The outcome of a validation-evidence stage.
pub open spec fn validation_stage_result(
    current: PromotionState,
    required: PromotionState,
    phase: ValidationPhase,
    evidence_id: Seq<char>,
    report: ReplayReport,
) -> Result<(), PromotionError> {
    if current != required {
        Err(PromotionError::WrongStage)
    } else if blank(evidence_id) {
        Err(PromotionError::MissingEvidenceId)
    } else if report.phase != phase {
        Err(PromotionError::WrongValidationPhase)
    } else if !report.well_formed() {
        Err(PromotionError::InvalidReplayReport)
    } else {
        Ok(())
    }
}

impl View for StrategyChangePromotion {
    type V = PromotionView;

    closed spec fn view(&self) -> PromotionView {
        PromotionView {
            change_id: self.change_id@,
            base_strategy_version: self.base_strategy_version@,
            hypothesis: self.hypothesis@,
            state: self.state,
            backtest_evidence_id: opt_text(self.backtest_evidence_id),
            out_of_sample_evidence_id: opt_text(self.out_of_sample_evidence_id),
            paper_shadow_evidence_id: opt_text(self.paper_shadow_evidence_id),
            paper_shadow_mode: self.paper_shadow_mode,
            new_strategy_version: opt_text(self.new_strategy_version),
        }
    }
}

impl StrategyChangePromotion {
    /// Starts a proposal from a non-blank change identity, base version and hypothesis.
    pub fn new(change_id: &str, base_strategy_version: &str, hypothesis: &str) -> (r: Result<
        Self,
        PromotionError,
    >)
        ensures
            blank(change_id@) ==> r == Err::<Self, PromotionError>(PromotionError::MissingChangeId),
            !blank(change_id@) && blank(base_strategy_version@) ==> r == Err::<
                Self,
                PromotionError,
            >(PromotionError::MissingBaseVersion),
            !blank(change_id@) && !blank(base_strategy_version@) && blank(hypothesis@) ==> r
                == Err::<Self, PromotionError>(PromotionError::MissingHypothesis),
            !blank(change_id@) && !blank(base_strategy_version@) && !blank(hypothesis@) ==> {
                &&& r is Ok
                &&& r.unwrap()@.change_id == change_id@
                &&& r.unwrap()@.base_strategy_version == base_strategy_version@
                &&& r.unwrap()@.hypothesis == hypothesis@
                &&& r.unwrap()@.state == PromotionState::HypothesisRecorded
                &&& r.unwrap()@.evidence_consistent()
            },
    {
        if is_blank(change_id) {
            return Err(PromotionError::MissingChangeId);
        }
        if is_blank(base_strategy_version) {
            return Err(PromotionError::MissingBaseVersion);
        }
        if is_blank(hypothesis) {
            return Err(PromotionError::MissingHypothesis);
        }
        Ok(
            StrategyChangePromotion {
                change_id: change_id.to_owned(),
                base_strategy_version: base_strategy_version.to_owned(),
                hypothesis: hypothesis.to_owned(),
                state: PromotionState::HypothesisRecorded,
                backtest_evidence_id: None,
                out_of_sample_evidence_id: None,
                paper_shadow_evidence_id: None,
                paper_shadow_mode: None,
                new_strategy_version: None,
            },
        )
    }

    #[must_use]
    pub fn change_id(&self) -> (r: &str)
        ensures
            r@ == self@.change_id,
    {
        self.change_id.as_str()
    }

    #[must_use]
    pub fn base_strategy_version(&self) -> (r: &str)
        ensures
            r@ == self@.base_strategy_version,
    {
        self.base_strategy_version.as_str()
    }

    #[must_use]
    pub fn hypothesis(&self) -> (r: &str)
        ensures
            r@ == self@.hypothesis,
    {
        self.hypothesis.as_str()
    }

    #[must_use]
    pub fn state(&self) -> (r: PromotionState)
        ensures
            r == self@.state,
    {
        self.state
    }

    #[must_use]
    pub fn backtest_evidence_id(&self) -> (r: Option<&str>)
        ensures
            match r {
                Some(s) => self@.backtest_evidence_id == Some(s@),
                None => self@.backtest_evidence_id is None,
            },
    {
        opt_str(&self.backtest_evidence_id)
    }

    #[must_use]
    pub fn out_of_sample_evidence_id(&self) -> (r: Option<&str>)
        ensures
            match r {
                Some(s) => self@.out_of_sample_evidence_id == Some(s@),
                None => self@.out_of_sample_evidence_id is None,
            },
    {
        opt_str(&self.out_of_sample_evidence_id)
    }

    #[must_use]
    pub fn paper_shadow_evidence_id(&self) -> (r: Option<&str>)
        ensures
            match r {
                Some(s) => self@.paper_shadow_evidence_id == Some(s@),
                None => self@.paper_shadow_evidence_id is None,
            },
    {
        opt_str(&self.paper_shadow_evidence_id)
    }

    #[must_use]
    pub fn paper_shadow_mode(&self) -> (r: Option<PaperShadowMode>)
        ensures
            r == self@.paper_shadow_mode,
    {
        self.paper_shadow_mode
    }

    #[must_use]
    pub fn new_strategy_version(&self) -> (r: Option<&str>)
        ensures
            match r {
                Some(s) => self@.new_strategy_version == Some(s@),
                None => self@.new_strategy_version is None,
            },
    {
        opt_str(&self.new_strategy_version)
    }

    /// Records that the backtest stage was performed. Report quality is not turned into a
    /// pass/fail threshold.
    pub fn record_backtest(&mut self, evidence_id: &str, report: ReplayReport) -> (r: Result<
        (),
        PromotionError,
    >)
        ensures
            r == validation_stage_result(
                old(self)@.state,
                PromotionState::HypothesisRecorded,
                ValidationPhase::Backtest,
                evidence_id@,
                report,
            ),
            r is Err ==> final(self)@.same(old(self)@),
            r is Ok ==> final(self)@.same(
                PromotionView {
                    state: PromotionState::BacktestRecorded,
                    backtest_evidence_id: Some(evidence_id@),
                    ..old(self)@
                },
            ),
            old(self)@.evidence_consistent() ==> final(self)@.evidence_consistent(),
    {
        self.record_validation_stage(
            PromotionState::HypothesisRecorded,
            PromotionState::BacktestRecorded,
            ValidationPhase::Backtest,
            evidence_id,
            report,
        )?;
        self.backtest_evidence_id = Some(evidence_id.to_owned());
        Ok(())
    }

    /// Records that the out-of-sample stage was performed after backtest evidence.
    pub fn record_out_of_sample(&mut self, evidence_id: &str, report: ReplayReport) -> (r: Result<
        (),
        PromotionError,
    >)
        ensures
            r == validation_stage_result(
                old(self)@.state,
                PromotionState::BacktestRecorded,
                ValidationPhase::OutOfSample,
                evidence_id@,
                report,
            ),
            r is Err ==> final(self)@.same(old(self)@),
            r is Ok ==> final(self)@.same(
                PromotionView {
                    state: PromotionState::OutOfSampleRecorded,
                    out_of_sample_evidence_id: Some(evidence_id@),
                    ..old(self)@
                },
            ),
            old(self)@.evidence_consistent() ==> final(self)@.evidence_consistent(),
    {
        self.record_validation_stage(
            PromotionState::BacktestRecorded,
            PromotionState::OutOfSampleRecorded,
            ValidationPhase::OutOfSample,
            evidence_id,
            report,
        )?;
        self.out_of_sample_evidence_id = Some(evidence_id.to_owned());
        Ok(())
    }

    /// Records opaque evidence that paper or shadow execution occurred.
    pub fn record_paper_shadow(&mut self, evidence_id: &str, mode: PaperShadowMode) -> (r: Result<
        (),
        PromotionError,
    >)
        ensures
            old(self)@.state != PromotionState::OutOfSampleRecorded ==> r == Err::<
                (),
                PromotionError,
            >(PromotionError::WrongStage),
            old(self)@.state == PromotionState::OutOfSampleRecorded && blank(evidence_id@) ==> r
                == Err::<(), PromotionError>(PromotionError::MissingEvidenceId),
            old(self)@.state == PromotionState::OutOfSampleRecorded && !blank(evidence_id@) ==> r
                is Ok,
            r is Err ==> final(self)@.same(old(self)@),
            r is Ok ==> final(self)@.same(
                PromotionView {
                    state: PromotionState::PaperShadowRecorded,
                    paper_shadow_evidence_id: Some(evidence_id@),
                    paper_shadow_mode: Some(mode),
                    ..old(self)@
                },
            ),
            old(self)@.evidence_consistent() ==> final(self)@.evidence_consistent(),
    {
        if self.state != PromotionState::OutOfSampleRecorded {
            return Err(PromotionError::WrongStage);
        }
        if is_blank(evidence_id) {
            return Err(PromotionError::MissingEvidenceId);
        }
        self.paper_shadow_evidence_id = Some(evidence_id.to_owned());
        self.paper_shadow_mode = Some(mode);
        self.state = PromotionState::PaperShadowRecorded;
        Ok(())
    }

    /// Human approval is an external decision. UNKNOWN cannot advance; FALSE records a terminal
    /// rejection; TRUE records approval, which still activates nothing.
    pub fn record_approval(&mut self, approval: Condition) -> (r: Result<(), PromotionError>)
        ensures
            old(self)@.state != PromotionState::PaperShadowRecorded ==> r == Err::<
                (),
                PromotionError,
            >(PromotionError::WrongStage),
            old(self)@.state == PromotionState::PaperShadowRecorded ==> r == match approval {
                Condition::Unknown => Err::<(), PromotionError>(PromotionError::ApprovalUnknown),
                _ => Ok(()),
            },
            r is Err ==> final(self)@.same(old(self)@),
            r is Ok ==> final(self)@.same(
                PromotionView {
                    state: if approval == Condition::True {
                        PromotionState::Approved
                    } else {
                        PromotionState::Rejected
                    },
                    ..old(self)@
                },
            ),
            old(self)@.evidence_consistent() ==> final(self)@.evidence_consistent(),
    {
        if self.state != PromotionState::PaperShadowRecorded {
            return Err(PromotionError::WrongStage);
        }
        match approval {
            Condition::True => {
                self.state = PromotionState::Approved;
                Ok(())
            },
            Condition::False => {
                self.state = PromotionState::Rejected;
                Ok(())
            },
            Condition::Unknown => Err(PromotionError::ApprovalUnknown),
        }
    }

    /// Records the externally supplied identifier of the new version; there is no activation.
    pub fn record_new_version(&mut self, new_version: &str) -> (r: Result<(), PromotionError>)
        ensures
            r == (if old(self)@.state == PromotionState::Rejected {
                Err(PromotionError::ProposalRejected)
            } else if old(self)@.state != PromotionState::Approved {
                Err(PromotionError::WrongStage)
            } else if blank(new_version@) {
                Err(PromotionError::MissingNewVersion)
            } else if new_version@ == old(self)@.base_strategy_version {
                Err(PromotionError::NewVersionMatchesBase)
            } else {
                Ok(())
            }),
            r is Err ==> final(self)@.same(old(self)@),
            r is Ok ==> final(self)@.same(
                PromotionView {
                    state: PromotionState::VersionRecorded,
                    new_strategy_version: Some(new_version@),
                    ..old(self)@
                },
            ),
            old(self)@.evidence_consistent() ==> final(self)@.evidence_consistent(),
    {
        if self.state == PromotionState::Rejected {
            return Err(PromotionError::ProposalRejected);
        }
        if self.state != PromotionState::Approved {
            return Err(PromotionError::WrongStage);
        }
        if is_blank(new_version) {
            return Err(PromotionError::MissingNewVersion);
        }
        if str_equal(new_version, self.base_strategy_version.as_str()) {
            return Err(PromotionError::NewVersionMatchesBase);
        }
        self.new_strategy_version = Some(new_version.to_owned());
        self.state = PromotionState::VersionRecorded;
        Ok(())
    }

    fn record_validation_stage(
        &mut self,
        required_state: PromotionState,
        next_state: PromotionState,
        required_phase: ValidationPhase,
        evidence_id: &str,
        report: ReplayReport,
    ) -> (r: Result<(), PromotionError>)
        ensures
            r == validation_stage_result(
                old(self)@.state,
                required_state,
                required_phase,
                evidence_id@,
                report,
            ),
            r is Err ==> final(self)@.same(old(self)@),
            r is Ok ==> final(self)@.same(PromotionView { state: next_state, ..old(self)@ }),
    {
        if self.state != required_state {
            return Err(PromotionError::WrongStage);
        }
        if is_blank(evidence_id) {
            return Err(PromotionError::MissingEvidenceId);
        }
        if report.phase != required_phase {
            return Err(PromotionError::WrongValidationPhase);
        }
        if !report.structurally_valid() {
            return Err(PromotionError::InvalidReplayReport);
        }
        self.state = next_state;
        Ok(())
    }
}

/// A recorded new version always follows complete evidence: backtest, out-of-sample and
/// paper/shadow evidence are present, and the version differs from the base version.
pub proof fn lemma_version_requires_complete_evidence(v: PromotionView)
    requires
        v.evidence_consistent(),
        v.state == PromotionState::VersionRecorded,
    ensures
        present(v.backtest_evidence_id),
        present(v.out_of_sample_evidence_id),
        present(v.paper_shadow_evidence_id),
        v.paper_shadow_mode is Some,
        v.new_strategy_version matches Some(nv) && nv != v.base_strategy_version,
{
}

} // verus!
