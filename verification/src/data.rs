//! Evaluation-cycle data readiness and gamma context.
use crate::truth::{all_conditions, conjunction, Condition};
use vstd::prelude::*;

verus! {

/// Required evaluation-cycle health facts. Adapters supply them; FALSE or UNKNOWN fails closed.
#[derive(Debug, Clone, Copy, PartialEq, Eq, Default, Structural)]
pub struct DataHealth {
    pub quote_fresh: Condition,
    pub footprint_fresh: Condition,
    pub volume_profile_available: Condition,
    pub broker_state_known: Condition,
    pub position_state_known: Condition,
    pub open_order_state_known: Condition,
    pub timestamps_synchronized: Condition,
}

impl DataHealth {
    /// The conditions in their fixed order.
    pub open spec fn conditions(self) -> Seq<Condition> {
        seq![
            self.quote_fresh,
            self.footprint_fresh,
            self.volume_profile_available,
            self.broker_state_known,
            self.position_state_known,
            self.open_order_state_known,
            self.timestamps_synchronized,
        ]
    }

    /// Tri-state conjunction of the health facts.
    #[must_use]
    pub fn validity(self) -> (r: Condition)
        ensures
            r == conjunction(self.conditions()),
    {
        let all = [
            self.quote_fresh,
            self.footprint_fresh,
            self.volume_profile_available,
            self.broker_state_known,
            self.position_state_known,
            self.open_order_state_known,
            self.timestamps_synchronized,
        ];
        proof {
            assert(all@ =~= self.conditions());
        }
        all_conditions(&all)
    }
}

/// Availability of each required market-data family.
#[derive(Debug, Clone, Copy, PartialEq, Eq, Default, Structural)]
pub struct RequiredMarketDataStatus {
    pub current_bid: Condition,
    pub current_ask: Condition,
    pub last_trade: Condition,
    pub ohlcv_1m: Condition,
    pub ohlcv_5m: Condition,
    pub ohlcv_15m: Condition,
    pub ohlcv_1h: Condition,
    pub ohlcv_4h: Condition,
}

impl RequiredMarketDataStatus {
    /// The conditions in their fixed order.
    pub open spec fn conditions(self) -> Seq<Condition> {
        seq![
            self.current_bid,
            self.current_ask,
            self.last_trade,
            self.ohlcv_1m,
            self.ohlcv_5m,
            self.ohlcv_15m,
            self.ohlcv_1h,
            self.ohlcv_4h,
        ]
    }

    /// Tri-state conjunction of the market-data families.
    #[must_use]
    pub fn readiness(self) -> (r: Condition)
        ensures
            r == conjunction(self.conditions()),
    {
        let all = [
            self.current_bid,
            self.current_ask,
            self.last_trade,
            self.ohlcv_1m,
            self.ohlcv_5m,
            self.ohlcv_15m,
            self.ohlcv_1h,
            self.ohlcv_4h,
        ];
        proof {
            assert(all@ =~= self.conditions());
        }
        all_conditions(&all)
    }
}

/// Availability of each required volume-profile family and the methodology controls.
#[derive(Debug, Clone, Copy, PartialEq, Eq, Default, Structural)]
pub struct RequiredVolumeProfileStatus {
    pub vah: Condition,
    pub val: Condition,
    pub poc: Condition,
    pub volume_at_price: Condition,
    pub low_volume_nodes: Condition,
    pub high_volume_nodes: Condition,
    pub same_methodology_every_session: Condition,
    pub methodology_unchanged_intraday: Condition,
}

impl RequiredVolumeProfileStatus {
    /// The conditions in their fixed order.
    pub open spec fn conditions(self) -> Seq<Condition> {
        seq![
            self.vah,
            self.val,
            self.poc,
            self.volume_at_price,
            self.low_volume_nodes,
            self.high_volume_nodes,
            self.same_methodology_every_session,
            self.methodology_unchanged_intraday,
        ]
    }

    /// Tri-state conjunction of the profile facts.
    #[must_use]
    pub fn readiness(self) -> (r: Condition)
        ensures
            r == conjunction(self.conditions()),
    {
        let all = [
            self.vah,
            self.val,
            self.poc,
            self.volume_at_price,
            self.low_volume_nodes,
            self.high_volume_nodes,
            self.same_methodology_every_session,
            self.methodology_unchanged_intraday,
        ];
        proof {
            assert(all@ =~= self.conditions());
        }
        all_conditions(&all)
    }
}

/// Health, market-data and volume-profile readiness together.
#[derive(Debug, Clone, Copy, PartialEq, Eq, Default, Structural)]
pub struct DataCycleReadiness {
    pub health: DataHealth,
    pub market_data: RequiredMarketDataStatus,
    pub volume_profile: RequiredVolumeProfileStatus,
}

impl DataCycleReadiness {
    /// Every required fact of the three families.
    pub open spec fn conditions(self) -> Seq<Condition> {
        self.health.conditions() + self.market_data.conditions() + self.volume_profile.conditions()
    }

    /// Tri-state conjunction of the three family results, which is the conjunction of every
    /// required fact.
    #[must_use]
    pub fn validity(self) -> (r: Condition)
        ensures
            r == conjunction(seq![
                conjunction(self.health.conditions()),
                conjunction(self.market_data.conditions()),
                conjunction(self.volume_profile.conditions()),
            ]),
            r == conjunction(self.conditions()),
    {
        let parts = [self.health.validity(), self.market_data.readiness(), self.volume_profile.readiness()];
        proof {
            assert(parts@ =~= seq![
                conjunction(self.health.conditions()),
                conjunction(self.market_data.conditions()),
                conjunction(self.volume_profile.conditions()),
            ]);
            lemma_conjunction_of_parts(
                self.health.conditions(),
                self.market_data.conditions(),
                self.volume_profile.conditions(),
            );
        }
        all_conditions(&parts)
    }
}

/// Conjoining the conjunctions of three lists is conjoining their concatenation.
pub proof fn lemma_conjunction_of_parts(a: Seq<Condition>, b: Seq<Condition>, c: Seq<Condition>)
    ensures
        conjunction(seq![conjunction(a), conjunction(b), conjunction(c)]) == conjunction(a + b + c),
{
    let s = a + b + c;
    let p = seq![conjunction(a), conjunction(b), conjunction(c)];
    assert forall|i: int| 0 <= i < s.len() implies (#[trigger] s[i] == if i < a.len() {
        a[i]
    } else if i < a.len() + b.len() {
        b[i - a.len()]
    } else {
        c[i - a.len() - b.len()]
    }) by {}
    if exists|i: int| 0 <= i < s.len() && s[i] == Condition::False {
        let i = choose|i: int| 0 <= i < s.len() && s[i] == Condition::False;
        if i < a.len() {
            assert(a[i] == Condition::False);
            assert(p[0] == Condition::False);
        } else if i < a.len() + b.len() {
            assert(b[i - a.len()] == Condition::False);
            assert(p[1] == Condition::False);
        } else {
            assert(c[i - a.len() - b.len()] == Condition::False);
            assert(p[2] == Condition::False);
        }
    } else if exists|i: int| 0 <= i < s.len() && s[i] == Condition::Unknown {
        let i = choose|i: int| 0 <= i < s.len() && s[i] == Condition::Unknown;
        assert(forall|j: int| 0 <= j < a.len() ==> a[j] == s[j]);
        assert(forall|j: int| 0 <= j < b.len() ==> b[j] == s[j + a.len()]);
        assert(forall|j: int| 0 <= j < c.len() ==> c[j] == s[j + a.len() + b.len()]);
        if i < a.len() {
            assert(a[i] == Condition::Unknown);
            assert(p[0] == Condition::Unknown);
        } else if i < a.len() + b.len() {
            assert(b[i - a.len()] == Condition::Unknown);
            assert(p[1] == Condition::Unknown);
        } else {
            assert(c[i - a.len() - b.len()] == Condition::Unknown);
            assert(p[2] == Condition::Unknown);
        }
        assert(forall|j: int| 0 <= j < 3 ==> p[j] != Condition::False);
    } else {
        assert(forall|j: int| 0 <= j < a.len() ==> a[j] == s[j]);
        assert(forall|j: int| 0 <= j < b.len() ==> b[j] == s[j + a.len()]);
        assert(forall|j: int| 0 <= j < c.len() ==> c[j] == s[j + a.len() + b.len()]);
        assert(p[0] == Condition::True);
        assert(p[1] == Condition::True);
        assert(p[2] == Condition::True);
    }
}

/// Gamma regime. Gamma is volatility context only and carries no directional permission.
#[derive(Debug, Clone, Copy, PartialEq, Eq, Structural)]
pub enum GammaRegime {
    Positive,
    Negative,
    Unavailable,
}

#[derive(Debug, Clone, Copy, PartialEq, Eq, Structural)]
pub enum VolatilityExpectation {
    Dampened,
    Amplified,
    Unknown,
}

impl GammaRegime {
    /// Positive gamma dampens volatility, negative gamma amplifies it, and an unavailable
    /// regime gives no expectation.
    #[must_use]
    pub fn volatility_expectation(self) -> (r: VolatilityExpectation)
        ensures
            r == match self {
                GammaRegime::Positive => VolatilityExpectation::Dampened,
                GammaRegime::Negative => VolatilityExpectation::Amplified,
                GammaRegime::Unavailable => VolatilityExpectation::Unknown,
            },
    {
        match self {
            GammaRegime::Positive => VolatilityExpectation::Dampened,
            GammaRegime::Negative => VolatilityExpectation::Amplified,
            GammaRegime::Unavailable => VolatilityExpectation::Unknown,
        }
    }
}

} // verus!
