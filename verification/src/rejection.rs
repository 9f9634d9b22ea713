//! Fixed rejection codes.
use vstd::prelude::*;

verus! {

/// Fixed rejection codes, numbered R01 to R25 in this order.
#[derive(Debug, Clone, Copy, PartialEq, Eq, Structural)]
pub enum RejectionCode {
    DataInvalid,
    StructureUnclear,
    Balanced,
    WrongDirection,
    ZoneInsideValue,
    Fib886Invalidation,
    LowParticipation,
    NoAggression,
    AggressionNotAtExtreme,
    AggressorSucceeded,
    NoAbsorption,
    NoDominanceShift,
    NoSecondTest,
    SecondTestInvalid,
    NoReconfirmation,
    TargetTooClose,
    RiskRejected,
    PortfolioRiskRejected,
    CorrelationConflict,
    DuplicateSetup,
    NewsBlackout,
    MissedEntry,
    TimeCutoff,
    ProcessError,
    BrokerUnsafe,
}

/// The ASCII digit for a value below ten.
pub open spec fn digit(d: int) -> char {
    if d == 0 { '0' } else if d == 1 { '1' } else if d == 2 { '2' } else if d == 3 { '3' }
    else if d == 4 { '4' } else if d == 5 { '5' } else if d == 6 { '6' } else if d == 7 { '7' }
    else if d == 8 { '8' } else { '9' }
}

impl RejectionCode {
    /// The number of the code, from 1 to 25.
    pub open spec fn number(self) -> int {
        match self {
            RejectionCode::DataInvalid => 1,
            RejectionCode::StructureUnclear => 2,
            RejectionCode::Balanced => 3,
            RejectionCode::WrongDirection => 4,
            RejectionCode::ZoneInsideValue => 5,
            RejectionCode::Fib886Invalidation => 6,
            RejectionCode::LowParticipation => 7,
            RejectionCode::NoAggression => 8,
            RejectionCode::AggressionNotAtExtreme => 9,
            RejectionCode::AggressorSucceeded => 10,
            RejectionCode::NoAbsorption => 11,
            RejectionCode::NoDominanceShift => 12,
            RejectionCode::NoSecondTest => 13,
            RejectionCode::SecondTestInvalid => 14,
            RejectionCode::NoReconfirmation => 15,
            RejectionCode::TargetTooClose => 16,
            RejectionCode::RiskRejected => 17,
            RejectionCode::PortfolioRiskRejected => 18,
            RejectionCode::CorrelationConflict => 19,
            RejectionCode::DuplicateSetup => 20,
            RejectionCode::NewsBlackout => 21,
            RejectionCode::MissedEntry => 22,
            RejectionCode::TimeCutoff => 23,
            RejectionCode::ProcessError => 24,
            RejectionCode::BrokerUnsafe => 25,
        }
    }

    /// The text of the code: `R` followed by its two-digit number.
    pub open spec fn code_text(self) -> Seq<char> {
        seq!['R', digit(self.number() / 10), digit(self.number() % 10)]
    }

    /// The stable text of the code.
    #[must_use]
    pub fn code(self) -> (r: &'static str)
        ensures
            r@ == self.code_text(),
    {
        match self {
            RejectionCode::DataInvalid => {
                proof {
                    reveal_strlit("R01");
                }
                "R01"
            },
            RejectionCode::StructureUnclear => {
                proof {
                    reveal_strlit("R02");
                }
                "R02"
            },
            RejectionCode::Balanced => {
                proof {
                    reveal_strlit("R03");
                }
                "R03"
            },
            RejectionCode::WrongDirection => {
                proof {
                    reveal_strlit("R04");
                }
                "R04"
            },
            RejectionCode::ZoneInsideValue => {
                proof {
                    reveal_strlit("R05");
                }
                "R05"
            },
            RejectionCode::Fib886Invalidation => {
                proof {
                    reveal_strlit("R06");
                }
                "R06"
            },
            RejectionCode::LowParticipation => {
                proof {
                    reveal_strlit("R07");
                }
                "R07"
            },
            RejectionCode::NoAggression => {
                proof {
                    reveal_strlit("R08");
                }
                "R08"
            },
            RejectionCode::AggressionNotAtExtreme => {
                proof {
                    reveal_strlit("R09");
                }
                "R09"
            },
            RejectionCode::AggressorSucceeded => {
                proof {
                    reveal_strlit("R10");
                }
                "R10"
            },
            RejectionCode::NoAbsorption => {
                proof {
                    reveal_strlit("R11");
                }
                "R11"
            },
            RejectionCode::NoDominanceShift => {
                proof {
                    reveal_strlit("R12");
                }
                "R12"
            },
            RejectionCode::NoSecondTest => {
                proof {
                    reveal_strlit("R13");
                }
                "R13"
            },
            RejectionCode::SecondTestInvalid => {
                proof {
                    reveal_strlit("R14");
                }
                "R14"
            },
            RejectionCode::NoReconfirmation => {
                proof {
                    reveal_strlit("R15");
                }
                "R15"
            },
            RejectionCode::TargetTooClose => {
                proof {
                    reveal_strlit("R16");
                }
                "R16"
            },
            RejectionCode::RiskRejected => {
                proof {
                    reveal_strlit("R17");
                }
                "R17"
            },
            RejectionCode::PortfolioRiskRejected => {
                proof {
                    reveal_strlit("R18");
                }
                "R18"
            },
            RejectionCode::CorrelationConflict => {
                proof {
                    reveal_strlit("R19");
                }
                "R19"
            },
            RejectionCode::DuplicateSetup => {
                proof {
                    reveal_strlit("R20");
                }
                "R20"
            },
            RejectionCode::NewsBlackout => {
                proof {
                    reveal_strlit("R21");
                }
                "R21"
            },
            RejectionCode::MissedEntry => {
                proof {
                    reveal_strlit("R22");
                }
                "R22"
            },
            RejectionCode::TimeCutoff => {
                proof {
                    reveal_strlit("R23");
                }
                "R23"
            },
            RejectionCode::ProcessError => {
                proof {
                    reveal_strlit("R24");
                }
                "R24"
            },
            RejectionCode::BrokerUnsafe => {
                proof {
                    reveal_strlit("R25");
                }
                "R25"
            },
        }
    }
}

/// Distinct rejection codes have distinct texts.
pub proof fn lemma_codes_distinct(a: RejectionCode, b: RejectionCode)
    ensures
        a != b ==> a.code_text() != b.code_text(),
{
    if a != b && a.code_text() == b.code_text() {
        assert(a.code_text()[1] == b.code_text()[1]);
        assert(a.code_text()[2] == b.code_text()[2]);
    }
}

} // verus!
