//! Vocabulary of the AI-native GEX research strategy, scope validity and snapshot timing.
use crate::text::{blank, is_blank};
use vstd::prelude::*;

verus! {

#[derive(Debug, Clone, Copy, PartialEq, Eq, Structural)]
pub enum OperatingMode {
    StrictSourceBaseline,
    AiNative,
}

#[derive(Debug, Clone, Copy, PartialEq, Eq, Structural)]
pub enum DataQuality {
    Structured,
    Parsed,
    Vision,
    Unknown,
}

#[derive(Debug, Clone, Copy, PartialEq, Eq, Structural)]
pub enum Session {
    Premarket,
    Regular,
    AfterHours,
}

#[derive(Debug, Clone, Copy, PartialEq, Eq, Structural)]
pub enum GexSign {
    Positive,
    Negative,
    Zero,
}

#[derive(Debug, Clone, Copy, PartialEq, Eq, Structural)]
pub enum DirectionFromSpot {
    Above,
    Below,
    At,
}

/// Aggregate and expiry-specific GEX are distinct ranking domains.
#[derive(Debug, Clone, PartialEq, Eq, PartialOrd, Ord)]
pub enum GexScope {
    Aggregate,
    Expiry(String),
}

/// Role of a GEX level; never inferred from magnitude alone.
#[derive(Debug, Clone, Copy, PartialEq, Eq, Structural)]
pub enum GexLevelRole {
    TargetMagnet,
    EntryPivot,
    Support,
    Resistance,
    BreakoutPivot,
    TrapDoor,
    SecondaryTarget,
    Unassigned,
}

#[derive(Debug, Clone, Copy, PartialEq, Eq, Structural)]
pub enum GammaRegime {
    Positive,
    Negative,
    Mixed,
    Unknown,
}

#[derive(Debug, Clone, Copy, PartialEq, Eq, Structural)]
pub enum GexInteractionState {
    Approaching,
    Testing,
    Absorbing,
    Rejecting,
    Holding,
    AcceptingAbove,
    AcceptingBelow,
    Breaking,
    AcceleratingAway,
    Ignoring,
    Unknown,
}

#[derive(Debug, Clone, Copy, PartialEq, Eq, Structural)]
pub enum Playbook {
    PositiveGammaMagnet,
    PositiveGammaPivotReaction,
    NegativeGammaExpansion,
    MixedGammaTransition,
    NoPlaybook,
}

#[derive(Debug, Clone, Copy, PartialEq, Eq, Structural)]
pub enum DecisionVerdict {
    Allow,
    Wait,
    Reject,
}

/// Provenance categories of a rule.
#[derive(Debug, Clone, Copy, PartialEq, Eq, Structural)]
pub enum RuleProvenance {
    SourceDerived,
    AiNativeAdaptation,
    Configurable,
    ValidationRequiredAssumption,
}

#[derive(Debug, Clone, Copy, PartialEq, Eq, Structural)]
pub enum GexNormalizationError {
    InvalidSpot,
    InvalidStrike,
    InvalidGexValue,
    InvalidScope,
}

#[derive(Debug, Clone, Copy, PartialEq, Eq, Structural)]
pub enum SnapshotError {
    MissingSnapshotId,
    MissingSymbol,
    InvalidSourceTimestamp,
    InvalidReceivedTimestamp,
    SourceAfterReceived,
    InvalidSpot,
    InvalidGex,
}

#[derive(Debug, Clone, Copy, PartialEq, Eq, Structural)]
pub enum ResearchRegimeError {
    InvalidWindow,
    InvalidMixedShareThreshold,
    InvalidScope,
}

/// A scope is valid unless it names a blank expiry.
pub open spec fn scope_is_valid(scope: GexScope) -> bool {
    match scope {
        GexScope::Aggregate => true,
        GexScope::Expiry(expiry) => !blank(expiry@),
    }
}

/// Whether a GEX scope is valid: the aggregate scope, or an expiry with a non-blank name.
#[must_use]
pub fn scope_valid(scope: &GexScope) -> (r: bool)
    ensures
        r == scope_is_valid(*scope),
{
    match scope {
        GexScope::Aggregate => true,
        GexScope::Expiry(expiry) => !is_blank(expiry.as_str()),
    }
}

/// The identity and timing checks of a market snapshot, in order, and its data age.
pub open spec fn snapshot_timing_result(
    snapshot_id: Seq<char>,
    symbol: Seq<char>,
    source_timestamp_millis: i64,
    received_timestamp_millis: i64,
) -> Result<u64, SnapshotError> {
    if blank(snapshot_id) {
        Err(SnapshotError::MissingSnapshotId)
    } else if blank(symbol) {
        Err(SnapshotError::MissingSymbol)
    } else if source_timestamp_millis < 0 {
        Err(SnapshotError::InvalidSourceTimestamp)
    } else if received_timestamp_millis < 0 {
        Err(SnapshotError::InvalidReceivedTimestamp)
    } else if source_timestamp_millis > received_timestamp_millis {
        Err(SnapshotError::SourceAfterReceived)
    } else {
        Ok((received_timestamp_millis - source_timestamp_millis) as u64)
    }
}

/// Checks a snapshot's identifier, symbol and timestamps; on success returns the data age in
/// milliseconds, the time from the source timestamp to receipt.
pub fn snapshot_timing(
    snapshot_id: &str,
    symbol: &str,
    source_timestamp_millis: i64,
    received_timestamp_millis: i64,
) -> (r: Result<u64, SnapshotError>)
    ensures
        r == snapshot_timing_result(
            snapshot_id@,
            symbol@,
            source_timestamp_millis,
            received_timestamp_millis,
        ),
{
    if is_blank(snapshot_id) {
        return Err(SnapshotError::MissingSnapshotId);
    }
    if is_blank(symbol) {
        return Err(SnapshotError::MissingSymbol);
    }
    if source_timestamp_millis < 0 {
        return Err(SnapshotError::InvalidSourceTimestamp);
    }
    if received_timestamp_millis < 0 {
        return Err(SnapshotError::InvalidReceivedTimestamp);
    }
    if source_timestamp_millis > received_timestamp_millis {
        return Err(SnapshotError::SourceAfterReceived);
    }
    Ok((received_timestamp_millis - source_timestamp_millis) as u64)
}

} // verus!
