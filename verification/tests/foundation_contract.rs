use a_trade::gex_strategy::{DecisionVerdict, GexInteractionState, OperatingMode, Playbook};

#[test]
fn specs_2_11_19_30_foundational_contract_enums_remain_explicit() {
    assert_ne!(OperatingMode::StrictSourceBaseline, OperatingMode::AiNative);
    assert_ne!(Playbook::PositiveGammaMagnet, Playbook::NegativeGammaExpansion);
    assert_ne!(GexInteractionState::Testing, GexInteractionState::Breaking);
    assert_ne!(DecisionVerdict::Wait, DecisionVerdict::Allow);
}
