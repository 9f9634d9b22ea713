use a_trade::{
    direction_allowed, Condition, DataHealth, Direction, GammaRegime, MarketState,
    VolatilityExpectation,
};

#[test]
fn section_16_data_health_requires_every_fact_true() {
    let healthy = DataHealth {
        quote_fresh: Condition::True,
        footprint_fresh: Condition::True,
        volume_profile_available: Condition::True,
        broker_state_known: Condition::True,
        position_state_known: Condition::True,
        open_order_state_known: Condition::True,
        timestamps_synchronized: Condition::True,
    };
    assert_eq!(healthy.validity(), Condition::True);

    let mut unknown = healthy;
    unknown.open_order_state_known = Condition::Unknown;
    assert_eq!(unknown.validity(), Condition::Unknown);

    let mut false_dominates_unknown = unknown;
    false_dominates_unknown.quote_fresh = Condition::False;
    assert_eq!(false_dominates_unknown.validity(), Condition::False);
}

#[test]
fn gamma_regime_sets_volatility_context_and_never_direction() {
    assert_eq!(
        GammaRegime::Positive.volatility_expectation(),
        VolatilityExpectation::Dampened
    );
    assert_eq!(
        GammaRegime::Negative.volatility_expectation(),
        VolatilityExpectation::Amplified
    );
    assert_eq!(
        GammaRegime::Unavailable.volatility_expectation(),
        VolatilityExpectation::Unknown
    );
    assert!(direction_allowed(MarketState::ValueUp, Direction::Long));
    assert!(!direction_allowed(MarketState::ValueUp, Direction::Short));
}
