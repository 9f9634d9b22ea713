use a_trade::{AdvisoryConditions, AgentRole, Condition};

#[test]
fn sections_6_109_advisory_roles_never_have_order_submission_authority() {
    let roles = [
        AgentRole::DataSupervisor,
        AgentRole::Environment,
        AgentRole::Gamma,
        AgentRole::ProfileLocation,
        AgentRole::SetupCoordinator,
        AgentRole::OrderFlow,
        AgentRole::StrategyValidator,
        AgentRole::RiskEngine,
        AgentRole::ExecutionEngine,
        AgentRole::PositionManager,
        AgentRole::Audit,
    ];
    for role in roles {
        assert!(!role.llm_may_submit_order());
    }
    assert!(AgentRole::OrderFlow.may_propose_trade());
    assert!(!AgentRole::Environment.may_propose_trade());
    assert!(!AgentRole::RiskEngine.may_propose_trade());
}

#[test]
fn section_107_default_condition_set_is_unknown_and_cannot_pass() {
    assert_eq!(AdvisoryConditions::default().setup_pass(), Condition::Unknown);
}
