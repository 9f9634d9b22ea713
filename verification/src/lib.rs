//! Deterministic, fail-closed authority logic for a multi-agent auction-market trading system.
pub mod advisory;
pub mod audit;
pub mod authorization;
pub mod broker_execution;
pub mod data;
pub mod environment;
pub mod execution_core;
pub mod footprint;
pub mod gex_engine;
pub mod gex_features;
pub mod gex_strategy;
pub mod location;
pub mod market;
pub mod news;
pub mod order_risk;
pub mod orderflow;
pub mod position_management;
pub mod promotion;
pub mod rejection;
pub mod safety;
pub mod session;
pub mod setup_registry;
pub mod setup_state;
pub mod strategy_validator;
pub mod text;
pub mod truth;
pub mod validation;

pub use advisory::{advisory_identity_check, AdvisoryConditions, AdvisoryValidationError, AgentRole};
pub use audit::{
    AuditError, AuditJournal, EffortResultChange, EffortResultSnapshot, RejectedSetupRecord,
    StateChangeRecord, StoredRejectedSetupRecord,
};
pub use authorization::{trade_authorized, AuthorizationInputs, ProductionConditions};
pub use broker_execution::{
    BrokerCapabilities, BrokerReconciliation, BrokerSubmission, ExecutionGateContext,
    ExecutionStatus, SetupRegistryStatus,
};
pub use data::{
    DataCycleReadiness, DataHealth, GammaRegime, RequiredMarketDataStatus,
    RequiredVolumeProfileStatus, VolatilityExpectation,
};
pub use environment::{
    classify_environment, premarket_freeze_check, EnvironmentEvaluation, PremarketPlanComponents,
    PremarketScenarioError,
};
pub use execution_core::{
    EntryProgress, ExecutionCore, PendingEntryAction, ProposalAuthority, ProtectionDecision,
};
pub use footprint::{
    delta_magnitude_at_least_prior20_median, level_totals_match, volume_participation,
    volume_share_at_extreme, LevelFlow, ParticipationRule, EXTREME_VOLUME_PERCENT,
    MNQ_PARTICIPATION_THRESHOLD,
};
pub use gex_engine::{contract_identity_check, spot_update_check, QuoteClock};
pub use gex_strategy::{scope_valid, snapshot_timing};
pub use location::{
    invalidation_active, location_step, new_structure_allowed, requires_new_setup_id,
    structure_eligible, structure_known, LocationEvent, StructureKey, SwingKind,
};
pub use market::{direction_allowed, Direction, MarketState};
pub use news::{evaluate_news_gate, NewsBlackoutWindow, NewsGateEvaluation};
pub use order_risk::{cluster_direction_clear, trigger_expired, ClusterExposure, OrderType};
pub use orderflow::{sequence_may_start, sequence_step};
pub use position_management::{reference_management_directive, ManagementDirective};
pub use promotion::{PaperShadowMode, PromotionError, PromotionState, StrategyChangePromotion};
pub use rejection::RejectionCode;
pub use safety::{aggregate_operational_risk_clear, OperationalSafetyController, ProcessViolationScope};
pub use session::{EtTime, SessionPermissions};
pub use setup_registry::{SetupRecord, SetupRegistry};
pub use setup_state::{SetupState, SetupStateError, TerminalState};
pub use strategy_validator::{validate_strategy_facts, StrategyFacts, StrategyValidationProof};
pub use truth::Condition;
pub use validation::{
    record_replay_case, summarize_replay, ReplayCaseEvidence, ReplayEvidenceError, ReplayOutcome,
    ReplayReport, ValidationDatasetManifest, ValidationManifestError, ValidationPhase,
};
