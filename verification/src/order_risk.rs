//! Order-risk rules on plain values: trigger expiry and cluster direction conflicts.
use crate::market::Direction;
use crate::text::{blank, is_blank, str_equal};
use crate::truth::{from_bool, Condition};
use vstd::prelude::*;

verus! {

#[derive(Debug, Clone, Copy, PartialEq, Eq, Structural)]
pub enum OrderType {
    StopLimit,
}

/// Number of completed 5-minute candles after which an unfilled trigger expires.
pub const TRIGGER_EXPIRY_CANDLES: u32 = 2;

/// An unfilled trigger expires after two completed 5-minute candles.
#[must_use]
pub fn trigger_expired(completed_5m_candles_since_reconfirmation: u32) -> (r: bool)
    ensures
        r == (completed_5m_candles_since_reconfirmation >= 2),
{
    completed_5m_candles_since_reconfirmation >= TRIGGER_EXPIRY_CANDLES
}

/// Existing exposure of a correlation cluster in one direction.
#[derive(Debug, Clone, Copy, PartialEq, Eq)]
pub struct ClusterExposure<'a> {
    pub cluster_id: &'a str,
    pub direction: Direction,
}

/// Whether a candidate may take its direction in its cluster.
pub open spec fn cluster_clear(
    candidate_cluster_id: Seq<char>,
    candidate_direction: Direction,
    existing: Seq<ClusterExposure>,
) -> Condition {
    if blank(candidate_cluster_id) || exists|i: int|
        0 <= i < existing.len() && blank((#[trigger] existing[i]).cluster_id@) {
        Condition::Unknown
    } else {
        from_bool(
            !exists|i: int|
                0 <= i < existing.len() && (#[trigger] existing[i]).cluster_id@
                    == candidate_cluster_id && existing[i].direction != candidate_direction,
        )
    }
}

/// A candidate needs an explicit cluster identity; an opposing direction in the same cluster
/// is a conflict and fails closed. Same-direction exposure is governed by cluster risk.
#[must_use]
pub fn cluster_direction_clear(
    candidate_cluster_id: &str,
    candidate_direction: Direction,
    existing: &[ClusterExposure<'_>],
) -> (r: Condition)
    ensures
        r == cluster_clear(candidate_cluster_id@, candidate_direction, existing@),
{
    if is_blank(candidate_cluster_id) {
        return Condition::Unknown;
    }
    let mut i: usize = 0;
    while i < existing.len()
        invariant
            i <= existing@.len(),
            forall|j: int| 0 <= j < i ==> !blank((#[trigger] existing@[j]).cluster_id@),
        decreases existing@.len() - i,
    {
        if is_blank(existing[i].cluster_id) {
            return Condition::Unknown;
        }
        i = i + 1;
    }
    let mut i: usize = 0;
    while i < existing.len()
        invariant
            i <= existing@.len(),
            !blank(candidate_cluster_id@),
            forall|j: int| 0 <= j < existing@.len() ==> !blank((#[trigger] existing@[j]).cluster_id@),
            forall|j: int|
                0 <= j < i ==> !((#[trigger] existing@[j]).cluster_id@ == candidate_cluster_id@
                    && existing@[j].direction != candidate_direction),
        decreases existing@.len() - i,
    {
        let exposure = existing[i];
        if str_equal(exposure.cluster_id, candidate_cluster_id) && exposure.direction
            != candidate_direction {
            assert(existing@[i as int].cluster_id@ == candidate_cluster_id@);
            return Condition::False;
        }
        i = i + 1;
    }
    Condition::True
}

} // verus!
