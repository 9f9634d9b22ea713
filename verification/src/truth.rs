//! Three-valued mandatory conditions: TRUE, FALSE and UNKNOWN.
use vstd::prelude::*;

verus! {

/// A mandatory condition. Only `True` permits; `False` and `Unknown` fail closed.
#[derive(Debug, Clone, Copy, PartialEq, Eq, Default, Structural)]
pub enum Condition {
    True,
    False,
    #[default]
    Unknown,
}

impl Condition {
    #[must_use]
    pub fn permits(self) -> (r: bool)
        ensures
            r == (self == Condition::True),
    {
        match self {
            Condition::True => true,
            _ => false,
        }
    }
}

/// The condition that a boolean fact gives.
pub open spec fn from_bool(b: bool) -> Condition {
    if b {
        Condition::True
    } else {
        Condition::False
    }
}

impl From<bool> for Condition {
    fn from(value: bool) -> (r: Self) {
        if value {
            Condition::True
        } else {
            Condition::False
        }
    }
}

impl vstd::std_specs::convert::FromSpecImpl<bool> for Condition {
    open spec fn obeys_from_spec() -> bool {
        true
    }

    open spec fn from_spec(v: bool) -> Self {
        from_bool(v)
    }
}

/// Tri-state conjunction of a list of conditions: FALSE when any is FALSE, otherwise
/// UNKNOWN when any is UNKNOWN, otherwise TRUE (the empty list included).
pub open spec fn conjunction(s: Seq<Condition>) -> Condition {
    if exists|i: int| 0 <= i < s.len() && s[i] == Condition::False {
        Condition::False
    } else if exists|i: int| 0 <= i < s.len() && s[i] == Condition::Unknown {
        Condition::Unknown
    } else {
        Condition::True
    }
}

/// Tri-state conjunction of a list of conditions.
pub fn all_conditions(conditions: &[Condition]) -> (r: Condition)
    ensures
        r == conjunction(conditions@),
{
    let mut saw_unknown = false;
    let mut i: usize = 0;
    while i < conditions.len()
        invariant
            i <= conditions@.len(),
            forall|j: int| 0 <= j < i ==> conditions@[j] != Condition::False,
            saw_unknown == (exists|j: int| 0 <= j < i && conditions@[j] == Condition::Unknown),
        decreases conditions@.len() - i,
    {
        match conditions[i] {
            Condition::False => {
                return Condition::False;
            },
            Condition::Unknown => {
                saw_unknown = true;
            },
            Condition::True => {},
        }
        i = i + 1;
    }
    if saw_unknown {
        Condition::Unknown
    } else {
        Condition::True
    }
}

/// Tri-state disjunction of two conditions: TRUE when either is TRUE, FALSE when both
/// are FALSE, otherwise UNKNOWN.
pub open spec fn either(a: Condition, b: Condition) -> Condition {
    if a == Condition::True || b == Condition::True {
        Condition::True
    } else if a == Condition::False && b == Condition::False {
        Condition::False
    } else {
        Condition::Unknown
    }
}

/// Tri-state disjunction of two conditions.
pub fn any_true(first: Condition, second: Condition) -> (r: Condition)
    ensures
        r == either(first, second),
{
    match (first, second) {
        (Condition::True, _) | (_, Condition::True) => Condition::True,
        (Condition::False, Condition::False) => Condition::False,
        _ => Condition::Unknown,
    }
}

/// Conjunction is TRUE exactly when every condition is TRUE, and FALSE exactly when some
/// condition is FALSE.
pub proof fn lemma_conjunction_cases(s: Seq<Condition>)
    ensures
        (conjunction(s) == Condition::True) <==> (forall|i: int|
            0 <= i < s.len() ==> #[trigger] s[i] == Condition::True),
        (conjunction(s) == Condition::False) <==> (exists|i: int|
            0 <= i < s.len() && #[trigger] s[i] == Condition::False),
{
    if conjunction(s) == Condition::True {
        assert forall|i: int| 0 <= i < s.len() implies #[trigger] s[i] == Condition::True by {
            if s[i] == Condition::False {
            } else if s[i] == Condition::Unknown {
            }
        }
    }
}

} // verus!
