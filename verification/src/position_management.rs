//! Position-management directives on tri-state facts.
use crate::truth::Condition;
use vstd::prelude::*;

verus! {

#[derive(Debug, Clone, Copy, PartialEq, Eq, Structural)]
pub enum ManagementDirective {
    NoDirective,
    MaintainOrTrail,
    Tighten,
    ExitRemaining,
    Unknown,
}

/// The directive at a reference level (POC or gamma). References never exit or reverse a
/// position by themselves: successful favorable effort maintains or trails, failed favorable
/// effort tightens, neither gives no directive, and anything unknown or contradictory is
/// UNKNOWN.
#[must_use]
pub fn reference_management_directive(
    favorable_effort_successful: Condition,
    favorable_effort_failure: Condition,
) -> (r: ManagementDirective)
    ensures
        r == match (favorable_effort_successful, favorable_effort_failure) {
            (Condition::True, Condition::False) => ManagementDirective::MaintainOrTrail,
            (Condition::False, Condition::True) => ManagementDirective::Tighten,
            (Condition::False, Condition::False) => ManagementDirective::NoDirective,
            _ => ManagementDirective::Unknown,
        },
        r != ManagementDirective::ExitRemaining,
{
    match (favorable_effort_successful, favorable_effort_failure) {
        (Condition::True, Condition::False) => ManagementDirective::MaintainOrTrail,
        (Condition::False, Condition::True) => ManagementDirective::Tighten,
        (Condition::False, Condition::False) => ManagementDirective::NoDirective,
        _ => ManagementDirective::Unknown,
    }
}

} // verus!
