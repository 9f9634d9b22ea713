use a_trade::gex_engine::GexError;
use a_trade::gex_features::{feature_identity_check, FeatureSetError};
use a_trade::{
    contract_identity_check, location_step, new_structure_allowed, spot_update_check,
    structure_eligible, LocationEvent, QuoteClock,
};
use a_trade::gex_strategy::{GexScope, SnapshotError};
use a_trade::{
    advisory_identity_check, invalidation_active, requires_new_setup_id, scope_valid,
    snapshot_timing, AdvisoryValidationError,
};
use a_trade::audit::AuditJournal;
use a_trade::gex_features::{
    evaluate_hard_vetoes_for, HardCondition, HardConditionKind, HardVetoError, HardVetoInput,
    HardVetoVerdict,
};
use a_trade::gex_strategy::DecisionVerdict;
use a_trade::{
    classify_environment, delta_magnitude_at_least_prior20_median, level_totals_match,
    premarket_freeze_check, sequence_may_start, sequence_step, validate_strategy_facts,
    volume_participation, volume_share_at_extreme, AuditError, Condition, DataCycleReadiness,
    DataHealth, Direction, EtTime, LevelFlow, MarketState, NewsBlackoutWindow, ParticipationRule,
    PremarketPlanComponents, PremarketScenarioError, RejectedSetupRecord, RejectionCode,
    RequiredMarketDataStatus, RequiredVolumeProfileStatus, SetupState, StrategyFacts,
    StructureKey, TerminalState,
};

fn at(h: u8, m: u8, s: u8) -> EtTime {
    EtTime::from_hms(h, m, s).unwrap()
}

fn ready_data() -> DataCycleReadiness {
    let t = Condition::True;
    DataCycleReadiness {
        health: DataHealth {
            quote_fresh: t,
            footprint_fresh: t,
            volume_profile_available: t,
            broker_state_known: t,
            position_state_known: t,
            open_order_state_known: t,
            timestamps_synchronized: t,
        },
        market_data: RequiredMarketDataStatus {
            current_bid: t,
            current_ask: t,
            last_trade: t,
            ohlcv_1m: t,
            ohlcv_5m: t,
            ohlcv_15m: t,
            ohlcv_1h: t,
            ohlcv_4h: t,
        },
        volume_profile: RequiredVolumeProfileStatus {
            vah: t,
            val: t,
            poc: t,
            volume_at_price: t,
            low_volume_nodes: t,
            high_volume_nodes: t,
            same_methodology_every_session: t,
            methodology_unchanged_intraday: t,
        },
    }
}

fn complete_plan() -> PremarketPlanComponents {
    let t = Condition::True;
    PremarketPlanComponents {
        market_environment_established: t,
        direction_permission_established: t,
        relevant_swing_structure_established: t,
        fib_location_established: t,
        gamma_regime_established: t,
        structural_targets_established: t,
        invalidations_established: t,
    }
}

const LONG_STRUCTURE: StructureKey = StructureKey {
    direction: Direction::Long,
    start_index: 3,
    end_index: 9,
};

const NO_WINDOWS: [NewsBlackoutWindow; 0] = [];

fn long_facts() -> StrategyFacts<'static> {
    StrategyFacts {
        setup_id: "SETUP-1",
        owner_agent_id: "MNQ_AGENT",
        instrument: "MNQ",
        now_et: at(10, 0, 0),
        data_readiness: ready_data(),
        scenario_agent_id: "MNQ_AGENT",
        scenario_instrument: "MNQ",
        market_state: MarketState::ValueUp,
        location_structure: LONG_STRUCTURE,
        location_state: SetupState::LocationReached,
        location_created_at: at(9, 45, 0),
        fib_levels_recalculated: true,
        zone_outside_locked_value: true,
        orderflow_direction: Direction::Long,
        orderflow_structure: LONG_STRUCTURE,
        orderflow_state: SetupState::FinalReconfirmation,
        first_failure_extreme_finite: true,
        reconfirmation_extreme_finite: true,
        news_schedule_valid: Condition::True,
        news_windows: &NO_WINDOWS,
    }
}

#[test]
fn strategy_facts_valid_long_produces_sealed_proof() {
    let proof = validate_strategy_facts(long_facts()).unwrap();
    assert_eq!(proof.setup_id(), "SETUP-1");
    assert_eq!(proof.owner_agent_id(), "MNQ_AGENT");
    assert_eq!(proof.instrument(), "MNQ");
    assert_eq!(proof.direction(), Direction::Long);
    assert_eq!(proof.market_state(), MarketState::ValueUp);
}

#[test]
fn strategy_facts_valid_short_produces_sealed_proof() {
    let short = StructureKey {
        direction: Direction::Short,
        start_index: 4,
        end_index: 11,
    };
    let facts = StrategyFacts {
        market_state: MarketState::ValueDown,
        location_structure: short,
        orderflow_structure: short,
        orderflow_direction: Direction::Short,
        ..long_facts()
    };
    let proof = validate_strategy_facts(facts).unwrap();
    assert_eq!(proof.direction(), Direction::Short);
    assert_eq!(proof.market_state(), MarketState::ValueDown);
}

#[test]
fn strategy_facts_time_cutoff_is_recalculated() {
    for (now, expected) in [
        (at(9, 29, 59), Err(RejectionCode::TimeCutoff)),
        (at(11, 0, 0), Err(RejectionCode::TimeCutoff)),
    ] {
        let facts = StrategyFacts {
            now_et: now,
            location_created_at: at(9, 0, 0),
            ..long_facts()
        };
        assert_eq!(validate_strategy_facts(facts).map(|_| ()), expected);
    }
    let facts = StrategyFacts {
        now_et: at(10, 59, 59),
        ..long_facts()
    };
    assert!(validate_strategy_facts(facts).is_ok());
}

#[test]
fn strategy_facts_unknown_data_is_data_invalid() {
    let mut data = ready_data();
    data.health.quote_fresh = Condition::Unknown;
    let facts = StrategyFacts {
        data_readiness: data,
        ..long_facts()
    };
    assert_eq!(
        validate_strategy_facts(facts).map(|_| ()),
        Err(RejectionCode::DataInvalid)
    );
}

#[test]
fn strategy_facts_environment_and_direction_rejections() {
    for (state, expected) in [
        (MarketState::Balanced, RejectionCode::Balanced),
        (MarketState::Unclear, RejectionCode::StructureUnclear),
        (MarketState::ValueDown, RejectionCode::WrongDirection),
    ] {
        let facts = StrategyFacts {
            market_state: state,
            ..long_facts()
        };
        assert_eq!(validate_strategy_facts(facts).map(|_| ()), Err(expected));
    }
    let facts = StrategyFacts {
        orderflow_direction: Direction::Short,
        ..long_facts()
    };
    assert_eq!(
        validate_strategy_facts(facts).map(|_| ()),
        Err(RejectionCode::WrongDirection)
    );
}

#[test]
fn strategy_facts_location_and_sequence_rejections() {
    let cases = [
        (
            StrategyFacts {
                zone_outside_locked_value: false,
                ..long_facts()
            },
            RejectionCode::ZoneInsideValue,
        ),
        (
            StrategyFacts {
                location_state: SetupState::Terminal(TerminalState::Invalidated),
                ..long_facts()
            },
            RejectionCode::Fib886Invalidation,
        ),
        (
            StrategyFacts {
                location_state: SetupState::WaitingForLocation,
                ..long_facts()
            },
            RejectionCode::ProcessError,
        ),
        (
            StrategyFacts {
                orderflow_state: SetupState::SecondFailure,
                ..long_facts()
            },
            RejectionCode::NoReconfirmation,
        ),
        (
            StrategyFacts {
                fib_levels_recalculated: false,
                ..long_facts()
            },
            RejectionCode::ProcessError,
        ),
        (
            StrategyFacts {
                orderflow_structure: StructureKey {
                    end_index: 10,
                    ..LONG_STRUCTURE
                },
                ..long_facts()
            },
            RejectionCode::ProcessError,
        ),
        (
            StrategyFacts {
                first_failure_extreme_finite: false,
                ..long_facts()
            },
            RejectionCode::ProcessError,
        ),
        (
            StrategyFacts {
                reconfirmation_extreme_finite: false,
                ..long_facts()
            },
            RejectionCode::NoReconfirmation,
        ),
        (
            StrategyFacts {
                location_created_at: at(10, 0, 1),
                ..long_facts()
            },
            RejectionCode::ProcessError,
        ),
    ];
    for (facts, expected) in cases {
        assert_eq!(validate_strategy_facts(facts).map(|_| ()), Err(expected));
    }
}

#[test]
fn strategy_facts_identity_cannot_forge_a_pass() {
    for facts in [
        StrategyFacts {
            setup_id: " ",
            ..long_facts()
        },
        StrategyFacts {
            scenario_agent_id: "OTHER",
            ..long_facts()
        },
        StrategyFacts {
            scenario_instrument: "MES",
            ..long_facts()
        },
    ] {
        assert_eq!(
            validate_strategy_facts(facts).map(|_| ()),
            Err(RejectionCode::ProcessError)
        );
    }
}

#[test]
fn strategy_facts_active_news_blackout_rejects() {
    let windows = [NewsBlackoutWindow {
        start_inclusive: at(9, 55, 0),
        end_exclusive: at(10, 5, 0),
    }];
    let facts = StrategyFacts {
        news_windows: &windows,
        ..long_facts()
    };
    assert_eq!(
        validate_strategy_facts(facts).map(|_| ()),
        Err(RejectionCode::NewsBlackout)
    );
    let ended = [NewsBlackoutWindow {
        start_inclusive: at(9, 40, 0),
        end_exclusive: at(9, 50, 0),
    }];
    let pre_event = StrategyFacts {
        news_windows: &ended,
        ..long_facts()
    };
    assert_eq!(
        validate_strategy_facts(pre_event).map(|_| ()),
        Err(RejectionCode::NewsBlackout)
    );
    let after_event = StrategyFacts {
        news_windows: &ended,
        location_created_at: at(9, 50, 0),
        ..long_facts()
    };
    assert!(validate_strategy_facts(after_event).is_ok());
}

#[test]
fn environment_three_of_four_with_structure_is_directional() {
    let up = classify_environment(
        true,
        [true, true, true, false],
        [false, false, false, true],
        true,
        false,
        Condition::Unknown,
    );
    assert_eq!(up.market_state, MarketState::ValueUp);
    assert_eq!(up.value_up_migration, Condition::True);
    assert_eq!(up.value_down_migration, Condition::False);
    assert_eq!(up.htf_bull_structure, Condition::True);

    let down = classify_environment(
        true,
        [false, true, false, false],
        [true, false, true, true],
        false,
        true,
        Condition::Unknown,
    );
    assert_eq!(down.market_state, MarketState::ValueDown);
    assert_eq!(down.value_down_migration, Condition::True);
}

#[test]
fn environment_two_of_four_or_missing_structure_is_not_directional() {
    let two = classify_environment(
        true,
        [true, true, false, false],
        [false, false, false, false],
        true,
        false,
        Condition::False,
    );
    assert_eq!(two.market_state, MarketState::Unclear);
    assert_eq!(two.value_up_migration, Condition::False);

    let no_structure = classify_environment(
        true,
        [true, true, true, true],
        [false, false, false, false],
        false,
        false,
        Condition::True,
    );
    assert_eq!(no_structure.market_state, MarketState::Balanced);
    assert_eq!(no_structure.value_up_migration, Condition::True);
}

#[test]
fn environment_balanced_needs_explicit_overlap_and_invalid_input_is_unclear() {
    for overlap in [Condition::False, Condition::Unknown] {
        let e = classify_environment(
            true,
            [false; 4],
            [false; 4],
            false,
            false,
            overlap,
        );
        assert_eq!(e.market_state, MarketState::Unclear);
    }
    let invalid = classify_environment(
        false,
        [true; 4],
        [false; 4],
        true,
        false,
        Condition::True,
    );
    assert_eq!(invalid.market_state, MarketState::Unclear);
    assert_eq!(invalid.value_up_migration, Condition::Unknown);
    assert_eq!(invalid.htf_bull_structure, Condition::Unknown);
    assert_eq!(
        invalid.prior_value_areas_substantially_overlap,
        Condition::True
    );
}

#[test]
fn premarket_freeze_boundary_is_092959() {
    assert_eq!(
        premarket_freeze_check(
            "MNQ_AGENT",
            "MNQ",
            "SCENARIO-1",
            at(9, 29, 59),
            Condition::True,
            complete_plan()
        ),
        Ok(())
    );
    assert_eq!(
        premarket_freeze_check(
            "MNQ_AGENT",
            "MNQ",
            "SCENARIO-1",
            at(9, 30, 0),
            Condition::True,
            complete_plan()
        ),
        Err(PremarketScenarioError::FreezeAtOrAfterOpen)
    );
}

#[test]
fn premarket_freeze_refusals_are_specific() {
    let mut incomplete = complete_plan();
    incomplete.fib_location_established = Condition::False;
    let mut unknown = complete_plan();
    unknown.gamma_regime_established = Condition::Unknown;
    let t = at(9, 0, 0);
    assert_eq!(
        premarket_freeze_check("", "MNQ", "S", t, Condition::True, complete_plan()),
        Err(PremarketScenarioError::MissingAgentId)
    );
    assert_eq!(
        premarket_freeze_check("A", " ", "S", t, Condition::True, complete_plan()),
        Err(PremarketScenarioError::MissingInstrument)
    );
    assert_eq!(
        premarket_freeze_check("A", "MNQ", "", t, Condition::True, complete_plan()),
        Err(PremarketScenarioError::MissingScenarioId)
    );
    assert_eq!(
        premarket_freeze_check("A", "MNQ", "S", t, Condition::Unknown, complete_plan()),
        Err(PremarketScenarioError::InvalidReferences)
    );
    assert_eq!(
        premarket_freeze_check("A", "MNQ", "S", t, Condition::True, incomplete),
        Err(PremarketScenarioError::IncompletePlan)
    );
    assert_eq!(
        premarket_freeze_check("A", "MNQ", "S", t, Condition::True, unknown),
        Err(PremarketScenarioError::UnknownPlan)
    );
}

#[test]
fn orderflow_step_advances_only_on_true_evidence_in_its_state() {
    assert!(sequence_may_start(SetupState::LocationReached));
    assert!(!sequence_may_start(SetupState::WaitingForLocation));
    assert_eq!(
        sequence_step(
            SetupState::LocationReached,
            SetupState::LocationReached,
            Some(Condition::True)
        ),
        (Condition::True, SetupState::AggressionPresent)
    );
    assert_eq!(
        sequence_step(
            SetupState::LocationReached,
            SetupState::LocationReached,
            Some(Condition::Unknown)
        ),
        (Condition::Unknown, SetupState::LocationReached)
    );
    assert_eq!(
        sequence_step(
            SetupState::AggressionPresent,
            SetupState::AggressionPresent,
            None
        ),
        (Condition::Unknown, SetupState::AggressionPresent)
    );
    assert_eq!(
        sequence_step(
            SetupState::LocationReached,
            SetupState::SecondTest,
            Some(Condition::True)
        ),
        (Condition::False, SetupState::LocationReached)
    );
}

#[test]
fn orderflow_steps_walk_every_state_to_final_reconfirmation() {
    let mut state = SetupState::LocationReached;
    let expected = [
        SetupState::AggressionPresent,
        SetupState::PotentialAbsorption,
        SetupState::FirstDominanceShift,
        SetupState::WaitingSecondTest,
        SetupState::SecondTest,
        SetupState::SecondFailure,
        SetupState::FinalReconfirmation,
    ];
    for next in expected {
        let (answer, after) = sequence_step(state, state, Some(Condition::True));
        assert_eq!(answer, Condition::True);
        assert_eq!(after, next);
        state = after;
    }
    assert_ne!(state, SetupState::EntryAuthorized);
}

fn flow(bid: u64, ask: u64, delta: i64) -> LevelFlow {
    LevelFlow {
        bid_volume: bid,
        ask_volume: ask,
        delta,
    }
}

#[test]
fn footprint_level_totals_must_match_candle_totals() {
    let levels = [flow(100, 50, -50), flow(30, 70, 40)];
    assert!(level_totals_match(&levels, 250, -10));
    assert!(!level_totals_match(&levels, 251, -10));
    assert!(!level_totals_match(&levels, 249, -10));
    assert!(!level_totals_match(&levels, 250, -9));
    assert!(level_totals_match(&[], 0, 0));
    let huge = [flow(u64::MAX, u64::MAX, i64::MIN), flow(u64::MAX, 0, i64::MIN)];
    assert!(!level_totals_match(&huge, u64::MAX, 0));
}

#[test]
fn footprint_extreme_share_boundary_is_35_percent() {
    assert!(volume_share_at_extreme(&[flow(20, 15, 0)], 100));
    assert!(!volume_share_at_extreme(&[flow(20, 14, 0)], 100));
    assert!(volume_share_at_extreme(&[flow(u64::MAX, u64::MAX, 0)], 100));
    assert!(volume_share_at_extreme(&[], 0));
}

#[test]
fn participation_mnq_threshold_and_rvol_median() {
    assert_eq!(
        volume_participation(20_000, ParticipationRule::MnqSourceThreshold, None),
        Condition::True
    );
    assert_eq!(
        volume_participation(19_999, ParticipationRule::MnqSourceThreshold, None),
        Condition::False
    );
    let history: Vec<u64> = (1..=20).map(|v| v * 100).collect();
    // Median of 100..=2000 step 100 is (1000 + 1100) / 2 = 1050.
    assert_eq!(
        volume_participation(
            1050,
            ParticipationRule::NonMnqTimeNormalizedRvol,
            Some(history.as_slice())
        ),
        Condition::True
    );
    assert_eq!(
        volume_participation(
            1049,
            ParticipationRule::NonMnqTimeNormalizedRvol,
            Some(history.as_slice())
        ),
        Condition::False
    );
    assert_eq!(
        volume_participation(
            1049,
            ParticipationRule::NonMnqTimeNormalizedRvol,
            Some(&history[..19])
        ),
        Condition::Unknown
    );
    assert_eq!(
        volume_participation(5, ParticipationRule::NonMnqTimeNormalizedRvol, None),
        Condition::Unknown
    );
    let zeros = [0_u64; 20];
    assert_eq!(
        volume_participation(5, ParticipationRule::NonMnqTimeNormalizedRvol, Some(&zeros[..])),
        Condition::Unknown
    );
}

#[test]
fn delta_magnitude_median_uses_absolute_values() {
    let mut previous: Vec<i64> = (1..=20).map(|v| v * 10).collect();
    previous.reverse();
    for (i, value) in previous.iter_mut().enumerate() {
        if i % 2 == 0 {
            *value = -*value;
        }
    }
    // Median magnitude of 10..=200 step 10 is 105.
    assert_eq!(
        delta_magnitude_at_least_prior20_median(-105, &previous),
        Condition::True
    );
    assert_eq!(
        delta_magnitude_at_least_prior20_median(104, &previous),
        Condition::False
    );
    assert_eq!(
        delta_magnitude_at_least_prior20_median(500, &previous[..5]),
        Condition::Unknown
    );
}

fn veto_input(snapshot_id: &str) -> HardVetoInput {
    let p = HardCondition::Pass;
    HardVetoInput {
        snapshot_id: snapshot_id.to_owned(),
        data_valid: p,
        data_fresh: p,
        gex_scope_valid: p,
        required_regime_data_valid: p,
        broker_connected: p,
        order_state_valid: p,
        instrument_tradable: p,
        liquidity_within_limits: p,
        max_position_risk_valid: p,
        max_portfolio_risk_valid: p,
        invalidation_defined: p,
        execution_cost_within_limits: p,
        kill_switch_clear: p,
    }
}

#[test]
fn hard_vetoes_failure_precedes_unknown_and_clearing_is_not_allow() {
    let clear = evaluate_hard_vetoes_for("SNAP-1", &veto_input("SNAP-1")).unwrap();
    assert_eq!(clear.verdict(), HardVetoVerdict::Cleared);
    assert_eq!(clear.blocking_decision(), None);

    let mut waiting = veto_input("SNAP-1");
    waiting.data_fresh = HardCondition::Unknown;
    let wait = evaluate_hard_vetoes_for("SNAP-1", &waiting).unwrap();
    assert_eq!(wait.verdict(), HardVetoVerdict::Wait);
    assert_eq!(wait.unknown_conditions(), &[HardConditionKind::DataFresh]);
    assert_eq!(wait.blocking_decision(), Some(DecisionVerdict::Wait));

    let mut both = waiting.clone();
    both.kill_switch_clear = HardCondition::Fail;
    both.data_valid = HardCondition::Fail;
    let reject = evaluate_hard_vetoes_for("SNAP-1", &both).unwrap();
    assert_eq!(reject.verdict(), HardVetoVerdict::Reject);
    assert_eq!(
        reject.failed_conditions(),
        &[HardConditionKind::DataValid, HardConditionKind::KillSwitchClear]
    );
    assert_eq!(reject.unknown_conditions(), &[HardConditionKind::DataFresh]);
    assert_eq!(reject.blocking_decision(), Some(DecisionVerdict::Reject));
    assert_eq!(reject.snapshot_id(), "SNAP-1");
}

#[test]
fn hard_vetoes_fail_closed_on_snapshot_identity() {
    assert_eq!(
        evaluate_hard_vetoes_for("SNAP-1", &veto_input(" ")).map(|_| ()),
        Err(HardVetoError::MissingSnapshotId)
    );
    assert_eq!(
        evaluate_hard_vetoes_for("SNAP-1", &veto_input("SNAP-2")).map(|_| ()),
        Err(HardVetoError::SnapshotMismatch)
    );
}

#[test]
fn audit_journal_keeps_one_terminal_record_per_setup() {
    let mut journal = AuditJournal::new();
    assert_eq!(journal.record_qualified_setup("SETUP-1"), Ok(()));
    assert_eq!(
        journal.record_qualified_setup("SETUP-1"),
        Err(AuditError::DuplicateRecord)
    );
    assert_eq!(
        journal.record_qualified_setup("  "),
        Err(AuditError::InvalidRecord)
    );
    assert_eq!(journal.qualified_setups(), 1);

    assert_eq!(journal.record_completed_trade("SETUP-1"), Ok(()));
    assert_eq!(
        journal.record_rejected_setup(RejectedSetupRecord {
            setup_id: "SETUP-1",
            rejection_code: RejectionCode::RiskRejected,
        }),
        Err(AuditError::DuplicateRecord)
    );
    assert_eq!(
        journal.record_rejected_setup(RejectedSetupRecord {
            setup_id: "SETUP-2",
            rejection_code: RejectionCode::NewsBlackout,
        }),
        Ok(())
    );
    assert_eq!(
        journal.record_completed_trade("SETUP-2"),
        Err(AuditError::DuplicateRecord)
    );
    assert_eq!(journal.completed_trades(), 1);
    assert_eq!(journal.rejected_setup_count(), 1);
    assert_eq!(journal.rejected_setups()[0].setup_id, "SETUP-2");
    assert_eq!(
        journal.rejected_setups()[0].rejection_code.code(),
        "R21"
    );
}

#[test]
fn audit_journal_counters_and_state_changes_append() {
    let mut journal = AuditJournal::new();
    assert_eq!(
        journal.record_state_change("SETUP-1", SetupState::Created, SetupState::WaitingForLocation),
        Ok(())
    );
    assert_eq!(
        journal.record_state_change("", SetupState::Created, SetupState::WaitingForLocation),
        Err(AuditError::InvalidRecord)
    );
    assert_eq!(journal.state_changes().len(), 1);
    assert_eq!(journal.state_changes()[0].to, SetupState::WaitingForLocation);
    journal.record_rule_compliance(true);
    journal.record_rule_compliance(false);
    assert_eq!(journal.rule_compliance_observations(), &[true, false]);
    journal.record_duplicate_signal_prevented();
    journal.record_risk_conflict_prevented();
    journal.record_risk_conflict_prevented();
    journal.record_execution_failure();
    assert_eq!(journal.duplicate_signals_prevented(), 1);
    assert_eq!(journal.risk_conflicts_prevented(), 2);
    assert_eq!(journal.execution_failures(), 1);
}

#[test]
fn invalidation_window_ends_at_second_failure() {
    assert!(invalidation_active(SetupState::Created));
    assert!(invalidation_active(SetupState::LocationReached));
    assert!(invalidation_active(SetupState::SecondFailure));
    assert!(!invalidation_active(SetupState::FinalReconfirmation));
    assert!(!invalidation_active(SetupState::PositionManagement));
    assert!(!invalidation_active(SetupState::Terminal(
        TerminalState::Invalidated
    )));
}

#[test]
fn invalidated_structure_needs_a_new_setup_id_only_for_new_structure() {
    let other = StructureKey {
        start_index: 12,
        end_index: 15,
        ..LONG_STRUCTURE
    };
    let invalidated = SetupState::Terminal(TerminalState::Invalidated);
    assert!(requires_new_setup_id(invalidated, LONG_STRUCTURE, other));
    assert!(!requires_new_setup_id(
        invalidated,
        LONG_STRUCTURE,
        LONG_STRUCTURE
    ));
    assert!(!requires_new_setup_id(
        SetupState::LocationReached,
        LONG_STRUCTURE,
        other
    ));
}

#[test]
fn snapshot_timing_checks_identity_then_timestamps() {
    assert_eq!(snapshot_timing("S1", "SPX", 1_000, 1_250), Ok(250));
    assert_eq!(snapshot_timing("S1", "SPX", 1_000, 1_000), Ok(0));
    assert_eq!(
        snapshot_timing(" ", "SPX", 1_000, 1_250),
        Err(SnapshotError::MissingSnapshotId)
    );
    assert_eq!(
        snapshot_timing("S1", "", 1_000, 1_250),
        Err(SnapshotError::MissingSymbol)
    );
    assert_eq!(
        snapshot_timing("S1", "SPX", -1, 1_250),
        Err(SnapshotError::InvalidSourceTimestamp)
    );
    assert_eq!(
        snapshot_timing("S1", "SPX", 1_000, -5),
        Err(SnapshotError::InvalidReceivedTimestamp)
    );
    assert_eq!(
        snapshot_timing("S1", "SPX", 1_251, 1_250),
        Err(SnapshotError::SourceAfterReceived)
    );
    assert_eq!(
        snapshot_timing("S1", "SPX", 0, i64::MAX),
        Ok(i64::MAX as u64)
    );
}

#[test]
fn gex_scope_is_valid_unless_expiry_is_blank() {
    assert!(scope_valid(&GexScope::Aggregate));
    assert!(scope_valid(&GexScope::Expiry("2025-01-17".to_owned())));
    assert!(!scope_valid(&GexScope::Expiry("  ".to_owned())));
}

#[test]
fn advisory_identity_and_llm_authority_are_checked() {
    assert_eq!(
        advisory_identity_check("S", "A", "MNQ", "10:00:00", false),
        Ok(())
    );
    assert_eq!(
        advisory_identity_check("S", "A", "MNQ", "10:00:00", true),
        Err(AdvisoryValidationError::LlmAuthorityViolation)
    );
    assert_eq!(
        advisory_identity_check("S", "", "MNQ", "10:00:00", true),
        Err(AdvisoryValidationError::MissingIdentity)
    );
}

#[test]
fn feature_set_is_bound_to_its_snapshot() {
    assert_eq!(feature_identity_check("SNAP", "SNAP"), Ok(()));
    assert_eq!(
        feature_identity_check("", "SNAP"),
        Err(FeatureSetError::MissingSnapshotId)
    );
    assert_eq!(
        feature_identity_check("OTHER", "SNAP"),
        Err(FeatureSetError::SnapshotMismatch)
    );
}

#[test]
fn quote_clock_tracks_latest_quote_per_contract() {
    let mut clock = QuoteClock::new();
    assert_eq!(clock.len(), 0);
    assert_eq!(clock.oldest(), None);
    assert_eq!(clock.newest(), None);
    clock.record("SPX_C_5000", 1_000);
    clock.record("SPX_P_4900", 900);
    clock.record("SPX_C_5100", 1_200);
    assert_eq!(clock.len(), 3);
    assert_eq!(clock.oldest(), Some(900));
    assert_eq!(clock.newest(), Some(1_200));
    assert!(clock.is_stale("SPX_C_5000", 999));
    assert!(!clock.is_stale("SPX_C_5000", 1_000));
    assert!(!clock.is_stale("UNKNOWN", 0));
    clock.record("SPX_C_5000", 1_500);
    assert_eq!(clock.quote_time("SPX_C_5000"), Some(1_500));
    assert_eq!(clock.len(), 3);
    assert!(clock.remove("SPX_P_4900"));
    assert!(!clock.remove("SPX_P_4900"));
    assert_eq!(clock.len(), 2);
    assert_eq!(clock.oldest(), Some(1_200));
    assert_eq!(clock.quote_time("SPX_P_4900"), None);
}

#[test]
fn spot_updates_never_move_back() {
    assert_eq!(spot_update_check(None, 0), Ok(()));
    assert_eq!(spot_update_check(Some(100), 100), Ok(()));
    assert_eq!(
        spot_update_check(Some(100), 99),
        Err(GexError::StaleSpotUpdate)
    );
    assert_eq!(
        spot_update_check(None, -1),
        Err(GexError::InvalidQuoteTime)
    );
}

#[test]
fn new_structure_obeys_entry_window_and_is_never_reused() {
    let fresh = StructureKey {
        start_index: 20,
        end_index: 24,
        ..LONG_STRUCTURE
    };
    let known = [LONG_STRUCTURE];
    assert!(new_structure_allowed(at(9, 30, 0), &known, fresh));
    assert!(new_structure_allowed(at(10, 59, 59), &known, fresh));
    assert!(!new_structure_allowed(at(11, 0, 0), &known, fresh));
    assert!(!new_structure_allowed(at(9, 29, 59), &known, fresh));
    assert!(!new_structure_allowed(at(10, 0, 0), &known, LONG_STRUCTURE));
}

#[test]
fn structure_must_be_ordered_and_follow_direction_permission() {
    assert!(structure_eligible(LONG_STRUCTURE, MarketState::ValueUp));
    assert!(!structure_eligible(LONG_STRUCTURE, MarketState::ValueDown));
    assert!(!structure_eligible(LONG_STRUCTURE, MarketState::Balanced));
    let backwards = StructureKey {
        start_index: 9,
        end_index: 9,
        ..LONG_STRUCTURE
    };
    assert!(!structure_eligible(backwards, MarketState::ValueUp));
}

#[test]
fn location_touch_reaches_only_from_waiting_and_breach_invalidates() {
    assert_eq!(
        location_step(SetupState::WaitingForLocation, true, false, true),
        (LocationEvent::Reached, SetupState::LocationReached)
    );
    assert_eq!(
        location_step(SetupState::LocationReached, true, false, true),
        (LocationEvent::NoEvent, SetupState::LocationReached)
    );
    assert_eq!(
        location_step(SetupState::WaitingForLocation, true, true, true),
        (
            LocationEvent::Invalidated,
            SetupState::Terminal(TerminalState::Invalidated)
        )
    );
    assert_eq!(
        location_step(SetupState::FinalReconfirmation, true, true, true),
        (LocationEvent::NoEvent, SetupState::FinalReconfirmation)
    );
    assert_eq!(
        location_step(SetupState::WaitingForLocation, false, true, true),
        (LocationEvent::NoEvent, SetupState::WaitingForLocation)
    );
    let invalidated = SetupState::Terminal(TerminalState::Invalidated);
    assert_eq!(
        location_step(invalidated, true, false, true),
        (LocationEvent::NoEvent, invalidated)
    );
}

#[test]
fn contract_identity_is_checked_against_the_book() {
    assert_eq!(contract_identity_check("SPX", "SPXW250117C05000", "SPX", "2025-01-17"), Ok(()));
    assert_eq!(
        contract_identity_check("SPX", " ", "SPX", "2025-01-17"),
        Err(GexError::MissingContractSymbol)
    );
    assert_eq!(
        contract_identity_check("SPX", "C1", "", "2025-01-17"),
        Err(GexError::MissingUnderlying)
    );
    assert_eq!(
        contract_identity_check("SPX", "C1", "NDX", "2025-01-17"),
        Err(GexError::UnderlyingMismatch)
    );
    assert_eq!(
        contract_identity_check("SPX", "C1", "SPX", ""),
        Err(GexError::MissingExpiration)
    );
}
