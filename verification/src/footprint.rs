//! Participation and delta-magnitude rules on integer footprint data.
use crate::truth::{from_bool, Condition};
use vstd::prelude::*;
use vstd::relations::{sorted_by, total_ordering};

verus! {

/// MNQ participation threshold, in contracts per completed 5-minute candle.
pub const MNQ_PARTICIPATION_THRESHOLD: u64 = 20000;

/// Share of candle volume, in percent, that marks an aggression extreme.
pub const EXTREME_VOLUME_PERCENT: u64 = 35;

/// Number of prior same-time-bucket sessions (or prior candles) a median is taken over.
pub const MEDIAN_WINDOW: usize = 20;

#[derive(Debug, Clone, Copy, PartialEq, Eq, Structural)]
pub enum ParticipationRule {
    MnqSourceThreshold,
    NonMnqTimeNormalizedRvol,
}

pub open spec fn ascending(a: u64, b: u64) -> bool {
    a <= b
}

/// The values in ascending order.
pub open spec fn sorted_values(s: Seq<u64>) -> Seq<u64> {
    s.sort_by(|a: u64, b: u64| ascending(a, b))
}

/// The two middle values (10th and 11th smallest) of twenty values; their sum is twice the
/// median.
pub open spec fn median_pair(s: Seq<u64>) -> (u64, u64) {
    (sorted_values(s)[9], sorted_values(s)[10])
}

/// The magnitude of a signed delta.
pub open spec fn magnitude(d: i64) -> u64 {
    if d < 0 {
        (-(d as int)) as u64
    } else {
        d as u64
    }
}

proof fn lemma_ascending_total()
    ensures
        total_ordering(|a: u64, b: u64| ascending(a, b)),
{
}

/// Sorts values ascending, keeping the same values.
fn sort_ascending(v: &mut Vec<u64>)
    ensures
        final(v)@.len() == old(v)@.len(),
        final(v)@.to_multiset() == old(v)@.to_multiset(),
        sorted_by(final(v)@, |a: u64, b: u64| ascending(a, b)),
{
    broadcast use vstd::seq_lib::group_to_multiset_ensures;

    let n = v.len();
    let ghost original = v@.to_multiset();
    let mut i: usize = 0;
    while i < n
        invariant
            n == v@.len(),
            i <= n,
            v@.to_multiset() == original,
            forall|a: int, b: int| 0 <= a < b < i ==> v@[a] <= v@[b],
            forall|a: int, b: int| 0 <= a < i && i <= b < n ==> v@[a] <= v@[b],
        decreases n - i,
    {
        let mut m: usize = i;
        let mut j: usize = i + 1;
        while j < n
            invariant
                n == v@.len(),
                i < n,
                i <= m < n,
                i + 1 <= j <= n,
                forall|b: int| i <= b < j ==> v@[m as int] <= v@[b],
            decreases n - j,
        {
            if v[j] < v[m] {
                m = j;
            }
            j = j + 1;
        }
        let a = v[i];
        let b = v[m];
        let ghost before = v@;
        v.set(i, b);
        v.set(m, a);
        proof {
            broadcast use vstd::multiset::group_multiset_axioms;

            let s1 = before.update(i as int, b);
            assert(v@ == s1.update(m as int, a));
            vstd::seq_lib::to_multiset_update(before, i as int, b);
            vstd::seq_lib::to_multiset_update(s1, m as int, a);
            assert(s1[m as int] == b);
            assert(before.to_multiset().contains(a)) by {
                broadcast use vstd::seq_lib::group_to_multiset_ensures;

                assert(before[i as int] == a);
                assert(before.contains(a));
            }
            assert(s1.update(m as int, a).to_multiset() =~= before.to_multiset());
        }
        i = i + 1;
    }
    proof {
        assert forall|a: int, b: int| 0 <= a < b < v@.len() implies #[trigger] ascending(v@[a], v@[b]) by {}
    }
}

/// The two middle values of exactly twenty values; `None` for any other count.
fn middle_pair(values: &[u64]) -> (r: Option<(u64, u64)>)
    ensures
        values@.len() != 20 ==> r is None,
        values@.len() == 20 ==> r == Some(median_pair(values@)),
{
    if values.len() != MEDIAN_WINDOW {
        return None;
    }
    let mut sorted: Vec<u64> = Vec::new();
    let mut i: usize = 0;
    while i < values.len()
        invariant
            i <= values@.len(),
            sorted@ == values@.take(i as int),
        decreases values@.len() - i,
    {
        sorted.push(values[i]);
        proof {
            assert(sorted@ =~= values@.take(i + 1));
        }
        i = i + 1;
    }
    proof {
        assert(values@.take(values@.len() as int) =~= values@);
    }
    sort_ascending(&mut sorted);
    proof {
        lemma_ascending_total();
        values@.lemma_sort_by_ensures(|a: u64, b: u64| ascending(a, b));
        vstd::seq_lib::lemma_sorted_unique(
            sorted@,
            sorted_values(values@),
            |a: u64, b: u64| ascending(a, b),
        );
    }
    Some((sorted[9], sorted[10]))
}

/// The median pair depends only on which values occur, not on their order: two lists holding
/// the same values give the same pair. For a list already in ascending order, the pair is its
/// 10th and 11th values; so in every list it is the 10th and 11th smallest values.
pub proof fn lemma_median_pair_order_free(a: Seq<u64>, b: Seq<u64>)
    ensures
        a.to_multiset() == b.to_multiset() ==> median_pair(a) == median_pair(b),
        (a.len() == 20 && forall|i: int, j: int| 0 <= i <= j < 20 ==> a[i] <= a[j]) ==> median_pair(a)
            == (a[9], a[10]),
{
    let leq = |x: u64, y: u64| ascending(x, y);
    lemma_ascending_total();
    a.lemma_sort_by_ensures(leq);
    b.lemma_sort_by_ensures(leq);
    if a.to_multiset() == b.to_multiset() {
        vstd::seq_lib::lemma_sorted_unique(sorted_values(a), sorted_values(b), leq);
    }
    if a.len() == 20 && forall|i: int, j: int| 0 <= i <= j < 20 ==> a[i] <= a[j] {
        assert(sorted_by(a, leq)) by {
            assert forall|i: int, j: int| 0 <= i < j < a.len() implies #[trigger] leq(a[i], a[j]) by {}
        }
        vstd::seq_lib::lemma_sorted_unique(a, sorted_values(a), leq);
    }
}

/// Participation does not depend on the order in which the prior same-bucket volumes are
/// given: the same twenty volumes in any order give the same participation fact.
pub proof fn lemma_participation_order_free(
    total_volume: u64,
    rule: ParticipationRule,
    a: Seq<u64>,
    b: Seq<u64>,
)
    requires
        a.to_multiset() == b.to_multiset(),
    ensures
        volume_participation_result(total_volume, rule, Some(a)) == volume_participation_result(
            total_volume,
            rule,
            Some(b),
        ),
{
    broadcast use vstd::seq_lib::group_to_multiset_ensures;

    assert(a.len() == a.to_multiset().len());
    assert(b.len() == b.to_multiset().len());
    lemma_median_pair_order_free(a, b);
}

/// The participation fact for a candle volume.
pub open spec fn volume_participation_result(
    total_volume: u64,
    rule: ParticipationRule,
    history: Option<Seq<u64>>,
) -> Condition {
    match rule {
        ParticipationRule::MnqSourceThreshold => from_bool(total_volume >= 20000),
        ParticipationRule::NonMnqTimeNormalizedRvol => match history {
            None => Condition::Unknown,
            Some(h) => if h.len() != 20 {
                Condition::Unknown
            } else {
                let (low, high) = median_pair(h);
                if low + high == 0 {
                    Condition::Unknown
                } else {
                    from_bool(2 * total_volume >= low + high)
                }
            },
        },
    }
}

/// Participation of a completed candle's volume. MNQ uses its fixed threshold. Other
/// instruments need exactly twenty prior same-time-bucket session volumes and compare the
/// current volume with their median, without division; a zero median is UNKNOWN.
#[must_use]
pub fn volume_participation(
    total_volume: u64,
    rule: ParticipationRule,
    prior_same_bucket_volumes: Option<&[u64]>,
) -> (r: Condition)
    ensures
        r == volume_participation_result(
            total_volume,
            rule,
            match prior_same_bucket_volumes {
                Some(h) => Some(h@),
                None => None,
            },
        ),
{
    match rule {
        ParticipationRule::MnqSourceThreshold => Condition::from(
            total_volume >= MNQ_PARTICIPATION_THRESHOLD,
        ),
        ParticipationRule::NonMnqTimeNormalizedRvol => {
            let history = match prior_same_bucket_volumes {
                Some(h) => h,
                None => {
                    return Condition::Unknown;
                },
            };
            let (middle_low, middle_high) = match middle_pair(history) {
                Some(pair) => pair,
                None => {
                    return Condition::Unknown;
                },
            };
            let median_twice = middle_low as u128 + middle_high as u128;
            if median_twice == 0 {
                return Condition::Unknown;
            }
            Condition::from(total_volume as u128 * 2 >= median_twice)
        },
    }
}

/// Whether a candle's delta magnitude reaches the median magnitude of the previous twenty
/// completed deltas.
pub open spec fn delta_magnitude_result(candle_delta: i64, previous: Seq<i64>) -> Condition {
    if previous.len() != 20 {
        Condition::Unknown
    } else {
        let (low, high) = median_pair(previous.map_values(|d: i64| magnitude(d)));
        from_bool(2 * magnitude(candle_delta) >= low + high)
    }
}

fn unsigned_magnitude(d: i64) -> (r: u64)
    ensures
        r == magnitude(d),
{
    if d < 0 {
        (-(d as i128)) as u64
    } else {
        d as u64
    }
}

/// The candle delta magnitude is at least the median magnitude of exactly twenty previous
/// completed deltas; any other count is UNKNOWN.
#[must_use]
pub fn delta_magnitude_at_least_prior20_median(
    candle_delta: i64,
    previous_20_completed_deltas: &[i64],
) -> (r: Condition)
    ensures
        r == delta_magnitude_result(candle_delta, previous_20_completed_deltas@),
{
    if previous_20_completed_deltas.len() != MEDIAN_WINDOW {
        return Condition::Unknown;
    }
    let ghost mags = previous_20_completed_deltas@.map_values(|d: i64| magnitude(d));
    let mut magnitudes: Vec<u64> = Vec::new();
    let mut i: usize = 0;
    while i < previous_20_completed_deltas.len()
        invariant
            i <= previous_20_completed_deltas@.len(),
            mags == previous_20_completed_deltas@.map_values(|d: i64| magnitude(d)),
            magnitudes@ == mags.take(i as int),
        decreases previous_20_completed_deltas@.len() - i,
    {
        magnitudes.push(unsigned_magnitude(previous_20_completed_deltas[i]));
        proof {
            assert(magnitudes@ =~= mags.take(i + 1));
        }
        i = i + 1;
    }
    proof {
        assert(mags.take(mags.len() as int) =~= mags);
    }
    let (middle_low, middle_high) = match middle_pair(magnitudes.as_slice()) {
        Some(pair) => pair,
        None => {
            return Condition::Unknown;
        },
    };
    Condition::from(
        unsigned_magnitude(candle_delta) as u128 * 2 >= middle_low as u128 + middle_high as u128,
    )
}

/// The integer order flow of one footprint level: its bid and ask volume and its delta.
#[derive(Debug, Clone, Copy, PartialEq, Eq, Structural)]
pub struct LevelFlow {
    pub bid_volume: u64,
    pub ask_volume: u64,
    pub delta: i64,
}

/// Total bid plus ask volume of the levels.
pub open spec fn volume_sum(levels: Seq<LevelFlow>) -> int
    decreases levels.len(),
{
    if levels.len() == 0 {
        0
    } else {
        volume_sum(levels.drop_last()) + levels.last().bid_volume + levels.last().ask_volume
    }
}

/// Total delta of the levels.
pub open spec fn delta_sum(levels: Seq<LevelFlow>) -> int
    decreases levels.len(),
{
    if levels.len() == 0 {
        0
    } else {
        delta_sum(levels.drop_last()) + levels.last().delta
    }
}

proof fn lemma_volume_sum_grows(levels: Seq<LevelFlow>, i: int, j: int)
    requires
        0 <= i <= j <= levels.len(),
    ensures
        volume_sum(levels.take(i)) <= volume_sum(levels.take(j)),
    decreases j - i,
{
    if i < j {
        lemma_volume_sum_grows(levels, i, j - 1);
        assert(levels.take(j).drop_last() =~= levels.take(j - 1));
    }
}

/// Whether the levels' volumes add up to the candle's total volume and their deltas to the
/// candle's delta.
#[must_use]
pub fn level_totals_match(levels: &[LevelFlow], total_volume: u64, candle_delta: i64) -> (r: bool)
    ensures
        r == (volume_sum(levels@) == total_volume && delta_sum(levels@) == candle_delta),
{
    let mut volume: u128 = 0;
    let mut delta: i128 = 0;
    let mut i: usize = 0;
    while i < levels.len()
        invariant
            i <= levels@.len(),
            volume == volume_sum(levels@.take(i as int)),
            volume <= total_volume,
            delta == delta_sum(levels@.take(i as int)),
            -(i as int) * 0x8000_0000_0000_0000 <= delta <= (i as int) * 0x8000_0000_0000_0000,
        decreases levels@.len() - i,
    {
        let level = levels[i];
        proof {
            assert(levels@.take(i + 1).drop_last() =~= levels@.take(i as int));
        }
        volume = volume + level.bid_volume as u128 + level.ask_volume as u128;
        delta = delta + level.delta as i128;
        i = i + 1;
        if volume > total_volume as u128 {
            proof {
                lemma_volume_sum_grows(levels@, i as int, levels@.len() as int);
                assert(levels@.take(levels@.len() as int) =~= levels@);
            }
            return false;
        }
    }
    proof {
        assert(levels@.take(levels@.len() as int) =~= levels@);
    }
    volume == total_volume as u128 && delta == candle_delta as i128
}

/// Whether the levels hold at least the extreme share (35 percent) of the candle's total volume.
#[must_use]
pub fn volume_share_at_extreme(levels: &[LevelFlow], total_volume: u64) -> (r: bool)
    ensures
        r == (volume_sum(levels@) * 100 >= total_volume * EXTREME_VOLUME_PERCENT),
{
    let mut volume: u128 = 0;
    let mut i: usize = 0;
    while i < levels.len()
        invariant
            i <= levels@.len(),
            volume == volume_sum(levels@.take(i as int)),
            volume <= total_volume,
        decreases levels@.len() - i,
    {
        let level = levels[i];
        proof {
            assert(levels@.take(i + 1).drop_last() =~= levels@.take(i as int));
        }
        volume = volume + level.bid_volume as u128 + level.ask_volume as u128;
        i = i + 1;
        if volume > total_volume as u128 {
            proof {
                lemma_volume_sum_grows(levels@, i as int, levels@.len() as int);
                assert(levels@.take(levels@.len() as int) =~= levels@);
            }
            return true;
        }
    }
    proof {
        assert(levels@.take(levels@.len() as int) =~= levels@);
    }
    volume * 100 >= total_volume as u128 * EXTREME_VOLUME_PERCENT as u128
}

} // verus!
