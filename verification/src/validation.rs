//! Offline replay validation: the frozen backtest / out-of-sample split, replay case
//! evidence, and exact replay reports.
use crate::rejection::RejectionCode;
use crate::setup_state::SetupState;
use crate::text::{blank, contains_text, is_blank, prefix_contains_text, str_equal, texts};
use vstd::prelude::*;

verus! {

/// Offline validation phases. Paper/shadow evidence is not produced by offline replay.
#[derive(Debug, Clone, Copy, PartialEq, Eq, Structural)]
pub enum ValidationPhase {
    Backtest,
    OutOfSample,
}

#[derive(Debug, Clone, PartialEq, Eq)]
pub struct ValidationDatasetManifest {
    pub strategy_version: String,
    pub backtest_session_ids: Vec<String>,
    pub out_of_sample_session_ids: Vec<String>,
}

#[derive(Debug, Clone, Copy, PartialEq, Eq, Structural)]
pub enum ValidationManifestError {
    MissingStrategyVersion,
    MissingBacktestSessions,
    MissingOutOfSampleSessions,
    EmptySessionId,
    DuplicateSessionId,
    SplitOverlap,
}

/// First problem met when scanning backtest session identifiers in order: a blank identifier,
/// or one that repeats an earlier identifier.
pub open spec fn backtest_scan(ids: Seq<Seq<char>>) -> Option<ValidationManifestError>
    decreases ids.len(),
{
    if ids.len() == 0 {
        None
    } else {
        match backtest_scan(ids.drop_last()) {
            Some(e) => Some(e),
            None => if blank(ids.last()) {
                Some(ValidationManifestError::EmptySessionId)
            } else if ids.drop_last().contains(ids.last()) {
                Some(ValidationManifestError::DuplicateSessionId)
            } else {
                None
            },
        }
    }
}

/// First problem met when scanning out-of-sample identifiers in order: a blank identifier, a
/// repeat, or one that is also a backtest session.
pub open spec fn out_of_sample_scan(backtest: Seq<Seq<char>>, ids: Seq<Seq<char>>) -> Option<
    ValidationManifestError,
>
    decreases ids.len(),
{
    if ids.len() == 0 {
        None
    } else {
        match out_of_sample_scan(backtest, ids.drop_last()) {
            Some(e) => Some(e),
            None => if blank(ids.last()) {
                Some(ValidationManifestError::EmptySessionId)
            } else if ids.drop_last().contains(ids.last()) {
                Some(ValidationManifestError::DuplicateSessionId)
            } else if backtest.contains(ids.last()) {
                Some(ValidationManifestError::SplitOverlap)
            } else {
                None
            },
        }
    }
}


/// A problem found in a prefix of the backtest identifiers is the problem of the whole list.
proof fn lemma_backtest_scan_prefix(ids: Seq<Seq<char>>, k: int)
    requires
        0 <= k <= ids.len(),
        backtest_scan(ids.take(k)) is Some,
    ensures
        backtest_scan(ids) == backtest_scan(ids.take(k)),
    decreases ids.len(),
{
    if k == ids.len() {
        assert(ids.take(k) =~= ids);
    } else {
        assert(ids.drop_last().take(k) =~= ids.take(k));
        lemma_backtest_scan_prefix(ids.drop_last(), k);
    }
}

/// A problem found in a prefix of the out-of-sample identifiers is the problem of the whole list.
proof fn lemma_out_of_sample_scan_prefix(backtest: Seq<Seq<char>>, ids: Seq<Seq<char>>, k: int)
    requires
        0 <= k <= ids.len(),
        out_of_sample_scan(backtest, ids.take(k)) is Some,
    ensures
        out_of_sample_scan(backtest, ids) == out_of_sample_scan(backtest, ids.take(k)),
    decreases ids.len(),
{
    if k == ids.len() {
        assert(ids.take(k) =~= ids);
    } else {
        assert(ids.drop_last().take(k) =~= ids.take(k));
        lemma_out_of_sample_scan_prefix(backtest, ids.drop_last(), k);
    }
}

impl ValidationDatasetManifest {
    pub open spec fn backtest(&self) -> Seq<Seq<char>> {
        texts(self.backtest_session_ids@)
    }

    pub open spec fn out_of_sample(&self) -> Seq<Seq<char>> {
        texts(self.out_of_sample_session_ids@)
    }

    /// The outcome of validating the manifest.
    pub open spec fn check(&self) -> Result<(), ValidationManifestError> {
        if blank(self.strategy_version@) {
            Err(ValidationManifestError::MissingStrategyVersion)
        } else if self.backtest_session_ids@.len() == 0 {
            Err(ValidationManifestError::MissingBacktestSessions)
        } else if self.out_of_sample_session_ids@.len() == 0 {
            Err(ValidationManifestError::MissingOutOfSampleSessions)
        } else {
            match backtest_scan(self.backtest()) {
                Some(e) => Err(e),
                None => match out_of_sample_scan(self.backtest(), self.out_of_sample()) {
                    Some(e) => Err(e),
                    None => Ok(()),
                },
            }
        }
    }

    /// The phase a session belongs to in a valid manifest.
    pub open spec fn phase_of(&self, session_id: Seq<char>) -> Option<ValidationPhase> {
        if self.backtest().contains(session_id) {
            Some(ValidationPhase::Backtest)
        } else if self.out_of_sample().contains(session_id) {
            Some(ValidationPhase::OutOfSample)
        } else {
            None
        }
    }

    /// Both splits must be present, every identifier non-blank and unique within its split,
    /// and no session may be in both splits.
    pub fn validate(&self) -> (r: Result<(), ValidationManifestError>)
        ensures
            r == self.check(),
    {
        if is_blank(self.strategy_version.as_str()) {
            return Err(ValidationManifestError::MissingStrategyVersion);
        }
        if self.backtest_session_ids.len() == 0 {
            return Err(ValidationManifestError::MissingBacktestSessions);
        }
        if self.out_of_sample_session_ids.len() == 0 {
            return Err(ValidationManifestError::MissingOutOfSampleSessions);
        }
        let bt = &self.backtest_session_ids;
        let mut i: usize = 0;
        while i < bt.len()
            invariant
                i <= bt@.len(),
                bt == &self.backtest_session_ids,
                !blank(self.strategy_version@),
                self.backtest_session_ids@.len() > 0,
                self.out_of_sample_session_ids@.len() > 0,
                backtest_scan(texts(bt@).take(i as int)) is None,
            decreases bt@.len() - i,
        {
            proof {
                assert(texts(bt@).take(i + 1).drop_last() =~= texts(bt@).take(i as int));
                assert(texts(bt@).take(i + 1).last() == bt@[i as int]@);
            }
            if is_blank(bt[i].as_str()) {
                proof {
                    lemma_backtest_scan_prefix(texts(bt@), i + 1);
                }
                return Err(ValidationManifestError::EmptySessionId);
            }
            if prefix_contains_text(bt, i, bt[i].as_str()) {
                proof {
                    lemma_backtest_scan_prefix(texts(bt@), i + 1);
                }
                return Err(ValidationManifestError::DuplicateSessionId);
            }
            i = i + 1;
        }
        proof {
            assert(texts(bt@).take(bt@.len() as int) =~= texts(bt@));
        }
        let oos = &self.out_of_sample_session_ids;
        let mut k: usize = 0;
        while k < oos.len()
            invariant
                k <= oos@.len(),
                bt == &self.backtest_session_ids,
                oos == &self.out_of_sample_session_ids,
                !blank(self.strategy_version@),
                self.backtest_session_ids@.len() > 0,
                self.out_of_sample_session_ids@.len() > 0,
                backtest_scan(texts(bt@)) is None,
                out_of_sample_scan(texts(bt@), texts(oos@).take(k as int)) is None,
            decreases oos@.len() - k,
        {
            proof {
                assert(texts(oos@).take(k + 1).drop_last() =~= texts(oos@).take(k as int));
                assert(texts(oos@).take(k + 1).last() == oos@[k as int]@);
            }
            if is_blank(oos[k].as_str()) {
                proof {
                    lemma_out_of_sample_scan_prefix(texts(bt@), texts(oos@), k + 1);
                }
                return Err(ValidationManifestError::EmptySessionId);
            }
            if prefix_contains_text(oos, k, oos[k].as_str()) {
                proof {
                    lemma_out_of_sample_scan_prefix(texts(bt@), texts(oos@), k + 1);
                }
                return Err(ValidationManifestError::DuplicateSessionId);
            }
            if contains_text(bt, oos[k].as_str()) {
                proof {
                    lemma_out_of_sample_scan_prefix(texts(bt@), texts(oos@), k + 1);
                }
                return Err(ValidationManifestError::SplitOverlap);
            }
            k = k + 1;
        }
        proof {
            assert(texts(oos@).take(oos@.len() as int) =~= texts(oos@));
        }
        Ok(())
    }

    /// The phase of a session in the validated split, or `None` when it is in neither.
    pub fn phase_for(&self, session_id: &str) -> (r: Result<
        Option<ValidationPhase>,
        ValidationManifestError,
    >)
        ensures
            match self.check() {
                Err(e) => r == Err::<Option<ValidationPhase>, ValidationManifestError>(e),
                Ok(_) => r == Ok::<Option<ValidationPhase>, ValidationManifestError>(
                    self.phase_of(session_id@),
                ),
            },
    {
        self.validate()?;
        if contains_text(&self.backtest_session_ids, session_id) {
            Ok(Some(ValidationPhase::Backtest))
        } else if contains_text(&self.out_of_sample_session_ids, session_id) {
            Ok(Some(ValidationPhase::OutOfSample))
        } else {
            Ok(None)
        }
    }
}

/// Final deterministic result captured by an offline replay case.
#[derive(Debug, Clone, Copy, PartialEq, Eq, Structural)]
pub struct ReplayOutcome {
    pub trade_authorized: bool,
    pub rejection_code: Option<RejectionCode>,
    pub setup_state: Option<SetupState>,
}

impl ReplayOutcome {
    /// An authorized trade cannot also carry a rejection.
    pub open spec fn consistent(self) -> bool {
        !(self.trade_authorized && self.rejection_code is Some)
    }

    fn valid(self) -> (r: bool)
        ensures
            r == self.consistent(),
    {
        !(self.trade_authorized && self.rejection_code.is_some())
    }
}

/// The observable content of a replay case.
pub struct CaseView {
    pub case_id: Seq<char>,
    pub setup_id: Seq<char>,
    pub session_id: Seq<char>,
    pub phase: ValidationPhase,
    pub expected: ReplayOutcome,
    pub observed: ReplayOutcome,
}

#[derive(Debug, Clone, PartialEq, Eq)]
pub struct ReplayCaseEvidence {
    case_id: String,
    setup_id: String,
    session_id: String,
    phase: ValidationPhase,
    expected: ReplayOutcome,
    observed: ReplayOutcome,
}

impl View for ReplayCaseEvidence {
    type V = CaseView;

    closed spec fn view(&self) -> CaseView {
        CaseView {
            case_id: self.case_id@,
            setup_id: self.setup_id@,
            session_id: self.session_id@,
            phase: self.phase,
            expected: self.expected,
            observed: self.observed,
        }
    }
}

impl ReplayCaseEvidence {
    #[must_use]
    pub fn case_id(&self) -> (r: &str)
        ensures
            r@ == self@.case_id,
    {
        self.case_id.as_str()
    }

    #[must_use]
    pub fn setup_id(&self) -> (r: &str)
        ensures
            r@ == self@.setup_id,
    {
        self.setup_id.as_str()
    }

    #[must_use]
    pub fn session_id(&self) -> (r: &str)
        ensures
            r@ == self@.session_id,
    {
        self.session_id.as_str()
    }

    #[must_use]
    pub fn phase(&self) -> (r: ValidationPhase)
        ensures
            r == self@.phase,
    {
        self.phase
    }

    #[must_use]
    pub fn expected(&self) -> (r: ReplayOutcome)
        ensures
            r == self@.expected,
    {
        self.expected
    }

    #[must_use]
    pub fn observed(&self) -> (r: ReplayOutcome)
        ensures
            r == self@.observed,
    {
        self.observed
    }

    /// The observed outcome equals the expected one in every field.
    #[must_use]
    pub fn exact_match(&self) -> (r: bool)
        ensures
            r == (self@.expected == self@.observed),
    {
        self.expected == self.observed
    }
}

#[derive(Debug, Clone, Copy, PartialEq, Eq, Structural)]
pub enum ReplayEvidenceError {
    InvalidManifest(ValidationManifestError),
    MissingCaseId,
    MissingSetupId,
    MissingSessionId,
    UnknownSession,
    PhaseMismatch,
    InvalidOutcome,
    EmptyEvidence,
    MixedPhases,
    DuplicateCaseId,
    DuplicateSetupEvidence,
}

impl From<ValidationManifestError> for ReplayEvidenceError {
    fn from(value: ValidationManifestError) -> (r: Self) {
        ReplayEvidenceError::InvalidManifest(value)
    }
}

impl vstd::std_specs::convert::FromSpecImpl<ValidationManifestError> for ReplayEvidenceError {
    open spec fn obeys_from_spec() -> bool {
        true
    }

    open spec fn from_spec(v: ValidationManifestError) -> Self {
        ReplayEvidenceError::InvalidManifest(v)
    }
}

/// The outcome of recording a replay case.
pub open spec fn replay_case_result(
    manifest: &ValidationDatasetManifest,
    case_id: Seq<char>,
    setup_id: Seq<char>,
    session_id: Seq<char>,
    phase: ValidationPhase,
    expected: ReplayOutcome,
    observed: ReplayOutcome,
) -> Result<CaseView, ReplayEvidenceError> {
    match manifest.check() {
        Err(e) => Err(ReplayEvidenceError::InvalidManifest(e)),
        Ok(_) => if blank(case_id) {
            Err(ReplayEvidenceError::MissingCaseId)
        } else if blank(setup_id) {
            Err(ReplayEvidenceError::MissingSetupId)
        } else if blank(session_id) {
            Err(ReplayEvidenceError::MissingSessionId)
        } else if !expected.consistent() || !observed.consistent() {
            Err(ReplayEvidenceError::InvalidOutcome)
        } else {
            match manifest.phase_of(session_id) {
                None => Err(ReplayEvidenceError::UnknownSession),
                Some(p) => if p != phase {
                    Err(ReplayEvidenceError::PhaseMismatch)
                } else {
                    Ok(
                        CaseView {
                            case_id,
                            setup_id,
                            session_id,
                            phase,
                            expected,
                            observed,
                        },
                    )
                },
            }
        },
    }
}

/// Records one replay case against the frozen validation split.
pub fn record_replay_case(
    manifest: &ValidationDatasetManifest,
    case_id: &str,
    setup_id: &str,
    session_id: &str,
    phase: ValidationPhase,
    expected: ReplayOutcome,
    observed: ReplayOutcome,
) -> (r: Result<ReplayCaseEvidence, ReplayEvidenceError>)
    ensures
        match replay_case_result(
            manifest,
            case_id@,
            setup_id@,
            session_id@,
            phase,
            expected,
            observed,
        ) {
            Ok(v) => r is Ok && r.unwrap()@ == v,
            Err(e) => r == Err::<ReplayCaseEvidence, ReplayEvidenceError>(e),
        },
{
    match manifest.validate() {
        Err(e) => {
            return Err(ReplayEvidenceError::from(e));
        },
        Ok(()) => {},
    }
    if is_blank(case_id) {
        return Err(ReplayEvidenceError::MissingCaseId);
    }
    if is_blank(setup_id) {
        return Err(ReplayEvidenceError::MissingSetupId);
    }
    if is_blank(session_id) {
        return Err(ReplayEvidenceError::MissingSessionId);
    }
    if !expected.valid() || !observed.valid() {
        return Err(ReplayEvidenceError::InvalidOutcome);
    }
    let manifest_phase = match manifest.phase_for(session_id) {
        Err(e) => {
            return Err(ReplayEvidenceError::from(e));
        },
        Ok(None) => {
            return Err(ReplayEvidenceError::UnknownSession);
        },
        Ok(Some(p)) => p,
    };
    if manifest_phase != phase {
        return Err(ReplayEvidenceError::PhaseMismatch);
    }
    Ok(
        ReplayCaseEvidence {
            case_id: case_id.to_owned(),
            setup_id: setup_id.to_owned(),
            session_id: session_id.to_owned(),
            phase,
            expected,
            observed,
        },
    )
}

#[derive(Debug, Clone, Copy, PartialEq, Eq, Structural)]
pub struct ReplayReport {
    pub phase: ValidationPhase,
    pub total_cases: usize,
    pub exact_matches: usize,
    pub mismatches: usize,
    pub authorization_mismatches: usize,
    pub rejection_mismatches: usize,
    pub state_mismatches: usize,
}

impl ReplayReport {
    pub open spec fn well_formed(self) -> bool {
        &&& self.total_cases > 0
        &&& self.mismatches <= self.total_cases
        &&& self.exact_matches == self.total_cases - self.mismatches
        &&& self.authorization_mismatches <= self.mismatches
        &&& self.rejection_mismatches <= self.mismatches
        &&& self.state_mismatches <= self.mismatches
    }

    /// Structural integrity only; no quality threshold is implied.
    #[must_use]
    pub fn structurally_valid(self) -> (r: bool)
        ensures
            r == self.well_formed(),
    {
        self.total_cases > 0 && self.mismatches <= self.total_cases && self.exact_matches
            == self.total_cases - self.mismatches && self.authorization_mismatches
            <= self.mismatches && self.rejection_mismatches <= self.mismatches
            && self.state_mismatches <= self.mismatches
    }
}

/// The views of a list of replay cases.
pub open spec fn case_views(s: Seq<ReplayCaseEvidence>) -> Seq<CaseView> {
    s.map_values(|e: ReplayCaseEvidence| e@)
}

/// Number of cases satisfying `p`.
pub open spec fn count(s: Seq<CaseView>, p: spec_fn(CaseView) -> bool) -> nat
    decreases s.len(),
{
    if s.len() == 0 {
        0
    } else {
        count(s.drop_last(), p) + if p(s.last()) {
            1nat
        } else {
            0nat
        }
    }
}

pub open spec fn is_exact(c: CaseView) -> bool {
    c.expected == c.observed
}

pub open spec fn authorization_differs(c: CaseView) -> bool {
    c.expected.trade_authorized != c.observed.trade_authorized
}

pub open spec fn rejection_differs(c: CaseView) -> bool {
    c.expected.rejection_code != c.observed.rejection_code
}

pub open spec fn state_differs(c: CaseView) -> bool {
    c.expected.setup_state != c.observed.setup_state
}

/// First duplicate met when scanning cases in order: a repeated case identifier, or a
/// repeated (session, setup) pair.
pub open spec fn duplicate_scan(s: Seq<CaseView>) -> Option<ReplayEvidenceError>
    decreases s.len(),
{
    if s.len() == 0 {
        None
    } else {
        match duplicate_scan(s.drop_last()) {
            Some(e) => Some(e),
            None => {
                let c = s.last();
                let prior = s.drop_last();
                if exists|j: int| 0 <= j < prior.len() && (#[trigger] prior[j]).case_id == c.case_id {
                    Some(ReplayEvidenceError::DuplicateCaseId)
                } else if exists|j: int|
                    0 <= j < prior.len() && (#[trigger] prior[j]).session_id == c.session_id
                        && prior[j].setup_id == c.setup_id {
                    Some(ReplayEvidenceError::DuplicateSetupEvidence)
                } else {
                    None
                }
            },
        }
    }
}

/// The report summarizing a list of cases.
pub open spec fn replay_summary(phase: ValidationPhase, s: Seq<CaseView>) -> Result<
    ReplayReport,
    ReplayEvidenceError,
> {
    if s.len() == 0 {
        Err(ReplayEvidenceError::EmptyEvidence)
    } else if exists|i: int| 0 <= i < s.len() && (#[trigger] s[i]).phase != phase {
        Err(ReplayEvidenceError::MixedPhases)
    } else {
        match duplicate_scan(s) {
            Some(e) => Err(e),
            None => Ok(
                ReplayReport {
                    phase,
                    total_cases: s.len() as usize,
                    exact_matches: count(s, |c: CaseView| is_exact(c)) as usize,
                    mismatches: (s.len() - count(s, |c: CaseView| is_exact(c))) as usize,
                    authorization_mismatches: count(
                        s,
                        |c: CaseView| authorization_differs(c),
                    ) as usize,
                    rejection_mismatches: count(s, |c: CaseView| rejection_differs(c)) as usize,
                    state_mismatches: count(s, |c: CaseView| state_differs(c)) as usize,
                },
            ),
        }
    }
}

/// A duplicate found in a prefix of the cases is the duplicate reported for the whole list.
proof fn lemma_duplicate_scan_prefix(s: Seq<CaseView>, k: int)
    requires
        0 <= k <= s.len(),
        duplicate_scan(s.take(k)) is Some,
    ensures
        duplicate_scan(s) == duplicate_scan(s.take(k)),
    decreases s.len(),
{
    if k == s.len() {
        assert(s.take(k) =~= s);
    } else {
        assert(s.drop_last().take(k) =~= s.take(k));
        lemma_duplicate_scan_prefix(s.drop_last(), k);
    }
}

proof fn lemma_count_bounded(s: Seq<CaseView>, p: spec_fn(CaseView) -> bool)
    ensures
        count(s, p) <= s.len(),
    decreases s.len(),
{
    if s.len() > 0 {
        lemma_count_bounded(s.drop_last(), p);
    }
}

/// When `p` implies `q`, fewer cases satisfy `p` than `q`; cases that fail `q` bound `p`.
proof fn lemma_count_implies(
    s: Seq<CaseView>,
    p: spec_fn(CaseView) -> bool,
    q: spec_fn(CaseView) -> bool,
)
    requires
        forall|c: CaseView| #[trigger] p(c) ==> !q(c),
    ensures
        count(s, p) + count(s, q) <= s.len(),
    decreases s.len(),
{
    if s.len() > 0 {
        lemma_count_implies(s.drop_last(), p, q);
    }
}

/// Summarizes exact replay evidence. No performance threshold is implied: the report can
/// neither approve nor promote a strategy.
pub fn summarize_replay(phase: ValidationPhase, evidence: &[ReplayCaseEvidence]) -> (r: Result<
    ReplayReport,
    ReplayEvidenceError,
>)
    ensures
        r == replay_summary(phase, case_views(evidence@)),
{
    let ghost views = case_views(evidence@);
    let n = evidence.len();
    if n == 0 {
        return Err(ReplayEvidenceError::EmptyEvidence);
    }
    let mut i: usize = 0;
    while i < n
        invariant
            n == evidence@.len(),
            views == case_views(evidence@),
            i <= n,
            forall|j: int| 0 <= j < i ==> (#[trigger] views[j]).phase == phase,
        decreases n - i,
    {
        if evidence[i].phase() != phase {
            assert(views[i as int].phase != phase);
            return Err(ReplayEvidenceError::MixedPhases);
        }
        i = i + 1;
    }
    assert(!(exists|i: int| 0 <= i < views.len() && (#[trigger] views[i]).phase != phase));
    let mut i: usize = 0;
    while i < n
        invariant
            n == evidence@.len(),
            views == case_views(evidence@),
            i <= n,
            duplicate_scan(views.take(i as int)) is None,
            forall|k: int| 0 <= k < views.len() ==> (#[trigger] views[k]).phase == phase,
        decreases n - i,
    {
        let ghost prior = views.take(i as int);
        proof {
            assert(views.take(i + 1).drop_last() =~= prior);
            assert(views.take(i + 1).last() == views[i as int]);
        }
        let mut j: usize = 0;
        while j < i
            invariant
                n == evidence@.len(),
                views == case_views(evidence@),
                i < n,
                j <= i,
                prior == views.take(i as int),
                duplicate_scan(prior) is None,
                views.take(i + 1).drop_last() == prior,
                views.take(i + 1).last() == views[i as int],
                forall|k: int| 0 <= k < views.len() ==> (#[trigger] views[k]).phase == phase,
                forall|k: int| 0 <= k < j ==> (#[trigger] prior[k]).case_id != views[i as int].case_id,
            decreases i - j,
        {
            if str_equal(evidence[j].case_id(), evidence[i].case_id()) {
                assert(prior[j as int].case_id == views[i as int].case_id);
                proof {
                    lemma_duplicate_scan_prefix(views, i + 1);
                }
                return Err(ReplayEvidenceError::DuplicateCaseId);
            }
            j = j + 1;
        }
        let mut j: usize = 0;
        while j < i
            invariant
                n == evidence@.len(),
                views == case_views(evidence@),
                i < n,
                j <= i,
                prior == views.take(i as int),
                duplicate_scan(prior) is None,
                views.take(i + 1).drop_last() == prior,
                views.take(i + 1).last() == views[i as int],
                forall|k: int| 0 <= k < views.len() ==> (#[trigger] views[k]).phase == phase,
                forall|k: int| 0 <= k < i ==> (#[trigger] prior[k]).case_id != views[i as int].case_id,
                forall|k: int|
                    0 <= k < j ==> !((#[trigger] prior[k]).session_id == views[i as int].session_id
                        && prior[k].setup_id == views[i as int].setup_id),
            decreases i - j,
        {
            if str_equal(evidence[j].session_id(), evidence[i].session_id()) && str_equal(
                evidence[j].setup_id(),
                evidence[i].setup_id(),
            ) {
                assert(prior[j as int].session_id == views[i as int].session_id);
                proof {
                    lemma_duplicate_scan_prefix(views, i + 1);
                }
                return Err(ReplayEvidenceError::DuplicateSetupEvidence);
            }
            j = j + 1;
        }
        i = i + 1;
    }
    proof {
        assert(views.take(n as int) =~= views);
    }
    let mut exact_matches: usize = 0;
    let mut authorization_mismatches: usize = 0;
    let mut rejection_mismatches: usize = 0;
    let mut state_mismatches: usize = 0;
    let mut i: usize = 0;
    while i < n
        invariant
            n == evidence@.len(),
            views == case_views(evidence@),
            i <= n,
            duplicate_scan(views) is None,
            forall|k: int| 0 <= k < views.len() ==> (#[trigger] views[k]).phase == phase,
            exact_matches == count(views.take(i as int), |c: CaseView| is_exact(c)),
            authorization_mismatches == count(
                views.take(i as int),
                |c: CaseView| authorization_differs(c),
            ),
            rejection_mismatches == count(views.take(i as int), |c: CaseView| rejection_differs(c)),
            state_mismatches == count(views.take(i as int), |c: CaseView| state_differs(c)),
        decreases n - i,
    {
        proof {
            assert(views.take(i + 1).drop_last() =~= views.take(i as int));
            assert(views.take(i + 1).last() == views[i as int]);
            lemma_count_bounded(views.take(i as int), |c: CaseView| is_exact(c));
            lemma_count_bounded(views.take(i as int), |c: CaseView| authorization_differs(c));
            lemma_count_bounded(views.take(i as int), |c: CaseView| rejection_differs(c));
            lemma_count_bounded(views.take(i as int), |c: CaseView| state_differs(c));
        }
        let case = &evidence[i];
        let expected = case.expected();
        let observed = case.observed();
        if case.exact_match() {
            exact_matches = exact_matches + 1;
        }
        if expected.trade_authorized != observed.trade_authorized {
            authorization_mismatches = authorization_mismatches + 1;
        }
        if expected.rejection_code != observed.rejection_code {
            rejection_mismatches = rejection_mismatches + 1;
        }
        if expected.setup_state != observed.setup_state {
            state_mismatches = state_mismatches + 1;
        }
        i = i + 1;
    }
    proof {
        assert(views.take(n as int) =~= views);
        lemma_count_bounded(views, |c: CaseView| is_exact(c));
    }
    Ok(
        ReplayReport {
            phase,
            total_cases: n,
            exact_matches,
            mismatches: n - exact_matches,
            authorization_mismatches,
            rejection_mismatches,
            state_mismatches,
        },
    )
}

/// Every report that summarizing produces is structurally valid: the mismatch counts add up
/// and no kind of mismatch exceeds the total number of mismatches.
pub proof fn lemma_summary_structurally_valid(phase: ValidationPhase, s: Seq<CaseView>)
    requires
        s.len() <= usize::MAX,
        replay_summary(phase, s) is Ok,
    ensures
        replay_summary(phase, s).unwrap().well_formed(),
        replay_summary(phase, s).unwrap().phase == phase,
        replay_summary(phase, s).unwrap().total_cases == s.len(),
{
    lemma_count_bounded(s, |c: CaseView| is_exact(c));
    lemma_count_bounded(s, |c: CaseView| authorization_differs(c));
    lemma_count_bounded(s, |c: CaseView| rejection_differs(c));
    lemma_count_bounded(s, |c: CaseView| state_differs(c));
    lemma_count_implies(s, |c: CaseView| authorization_differs(c), |c: CaseView| is_exact(c));
    lemma_count_implies(s, |c: CaseView| rejection_differs(c), |c: CaseView| is_exact(c));
    lemma_count_implies(s, |c: CaseView| state_differs(c), |c: CaseView| is_exact(c));
}

/// Counting the cases that satisfy a predicate is the length of their filter.
proof fn lemma_count_is_filter_len(s: Seq<CaseView>, p: spec_fn(CaseView) -> bool)
    ensures
        count(s, p) == s.filter(p).len(),
    decreases s.len(),
{
    reveal(Seq::filter);
    if s.len() > 0 {
        lemma_count_is_filter_len(s.drop_last(), p);
    }
}

/// Each count of a summary counts exactly the cases it names: exact matches are the cases
/// whose expected and observed outcomes are equal, and authorization, rejection and state
/// mismatches are the cases whose authorization, rejection code, and setup state differ
/// respectively, each independently of the other fields.
pub proof fn lemma_summary_counts_characterized(phase: ValidationPhase, s: Seq<CaseView>)
    requires
        s.len() <= usize::MAX,
        replay_summary(phase, s) is Ok,
    ensures
        ({
            let r = replay_summary(phase, s).unwrap();
            &&& r.exact_matches == s.filter(|c: CaseView| c.expected == c.observed).len()
            &&& r.authorization_mismatches == s.filter(
                |c: CaseView| c.expected.trade_authorized != c.observed.trade_authorized,
            ).len()
            &&& r.rejection_mismatches == s.filter(
                |c: CaseView| c.expected.rejection_code != c.observed.rejection_code,
            ).len()
            &&& r.state_mismatches == s.filter(
                |c: CaseView| c.expected.setup_state != c.observed.setup_state,
            ).len()
        }),
{
    let e = |c: CaseView| c.expected == c.observed;
    let a = |c: CaseView| c.expected.trade_authorized != c.observed.trade_authorized;
    let j = |c: CaseView| c.expected.rejection_code != c.observed.rejection_code;
    let t = |c: CaseView| c.expected.setup_state != c.observed.setup_state;
    lemma_count_is_filter_len(s, e);
    lemma_count_is_filter_len(s, a);
    lemma_count_is_filter_len(s, j);
    lemma_count_is_filter_len(s, t);
    lemma_count_bounded(s, |c: CaseView| is_exact(c));
    lemma_count_bounded(s, |c: CaseView| authorization_differs(c));
    lemma_count_bounded(s, |c: CaseView| rejection_differs(c));
    lemma_count_bounded(s, |c: CaseView| state_differs(c));
    assert(count(s, |c: CaseView| is_exact(c)) == count(s, e)) by {
        assert((|c: CaseView| is_exact(c)) =~= e);
    }
    assert(count(s, |c: CaseView| authorization_differs(c)) == count(s, a)) by {
        assert((|c: CaseView| authorization_differs(c)) =~= a);
    }
    assert(count(s, |c: CaseView| rejection_differs(c)) == count(s, j)) by {
        assert((|c: CaseView| rejection_differs(c)) =~= j);
    }
    assert(count(s, |c: CaseView| state_differs(c)) == count(s, t)) by {
        assert((|c: CaseView| state_differs(c)) =~= t);
    }
}

/// A recorded case always belongs to the validated split, in the phase the manifest assigns to
/// its session, and never carries an authorized outcome with a rejection.
pub proof fn lemma_recorded_case_in_split(
    manifest: &ValidationDatasetManifest,
    case_id: Seq<char>,
    setup_id: Seq<char>,
    session_id: Seq<char>,
    phase: ValidationPhase,
    expected: ReplayOutcome,
    observed: ReplayOutcome,
)
    requires
        replay_case_result(manifest, case_id, setup_id, session_id, phase, expected, observed) is Ok,
    ensures
        manifest.check() is Ok,
        manifest.phase_of(session_id) == Some(phase),
        expected.consistent() && observed.consistent(),
        !blank(case_id) && !blank(setup_id) && !blank(session_id),
{
}

} // verus!
