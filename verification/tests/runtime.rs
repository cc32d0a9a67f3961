use chimera_agent::error::AgentCommandError;
use chimera_agent::model::AgentSelectedCore;
use chimera_agent::diagnostics::SystemProxyConfiguration;
use chimera_agent::model::{AgentCoreState, AgentRoutingMode, AgentRunType};
use chimera_agent::runtime::{
    after_observation, before_observation, change_step, check_proxy_repair,
    check_stale_proxy_disable, check_stale_proxy_read, proxy_restored, stale_proxy_is_off,
    start_stale_proxy_disable, ChangeStage, ChangeStep,
    disabled_proxy, map_core_state, map_run_type, map_selected_core, repaired_proxy,
    routing_transaction_error, secret_is_weak, settle_change, summarize_profiles,
    to_runtime_routing_mode, uncertain_action_outcome, ClashCore, CoreState, ObservationStep,
    ProfileEntry, RunType, RuntimeRoutingMode, TransactionOutcome,
};

#[test]
fn selected_core_mapping_is_closed_at_the_configuration_boundary() {
    let cases = [
        (ClashCore::ClashPremium, AgentSelectedCore::Clash),
        (ClashCore::ClashRs, AgentSelectedCore::ClashRs),
        (ClashCore::Mihomo, AgentSelectedCore::Mihomo),
        (ClashCore::ChimeraClient, AgentSelectedCore::ChimeraClient),
        (ClashCore::MihomoAlpha, AgentSelectedCore::MihomoAlpha),
        (ClashCore::ClashRsAlpha, AgentSelectedCore::ClashRsAlpha),
    ];

    for (source, expected) in cases {
        assert_eq!(map_selected_core(source), expected);
    }
}

#[test]
fn routing_transaction_outcomes_preserve_agent_error_semantics() {
    assert!(routing_transaction_error(&TransactionOutcome::Committed).is_none());
    assert_eq!(
        routing_transaction_error(&TransactionOutcome::Rejected {
            primary_error: "read failed".into(),
        })
        .expect("rejected transaction should fail")
        .as_str(),
        "agent_action_failed"
    );
    assert_eq!(
        routing_transaction_error(&TransactionOutcome::RolledBack {
            primary_error: "persist failed".into(),
        })
        .expect("compensated transaction should fail")
        .as_str(),
        "agent_action_failed"
    );
    assert_eq!(
        routing_transaction_error(&TransactionOutcome::RollbackFailed {
            primary_error: "persist failed".into(),
            rollback_error: "restore failed".into(),
        })
        .expect("failed compensation should be partial")
        .as_str(),
        "agent_action_partially_applied"
    );
}

#[test]
fn failed_changes_report_whether_the_rollback_held() {
    assert_eq!(settle_change(true, true, false), Ok(()));
    assert_eq!(settle_change(false, false, true), Err(AgentCommandError::ActionFailed));
    assert_eq!(settle_change(true, false, true), Err(AgentCommandError::VerificationFailed));
    assert_eq!(settle_change(false, false, false), Err(AgentCommandError::PartialApply));
    assert_eq!(settle_change(true, false, false), Err(AgentCommandError::PartialApply));
}

#[test]
fn weak_secrets_are_missing_blank_or_the_default() {
    assert!(secret_is_weak(None));
    assert!(secret_is_weak(Some("")));
    assert!(secret_is_weak(Some(" \t")));
    assert!(secret_is_weak(Some("chimera")));
    assert!(!secret_is_weak(Some("a-long-random-secret")));
}

#[test]
fn profile_summary_counts_without_names() {
    let items = vec![
        ProfileEntry { uid: "a".into(), remote: true },
        ProfileEntry { uid: "b".into(), remote: false },
        ProfileEntry { uid: "c".into(), remote: true },
    ];
    let summary = summarize_profiles(&items, &vec!["c".to_string()]);
    assert_eq!(summary.total_count, 3);
    assert_eq!(summary.active_count, 1);
    assert_eq!(summary.remote_count, 2);
    assert_eq!(summary.local_count, 1);
    assert!(summary.active_references_valid);
    assert!(!summarize_profiles(&items, &vec!["missing".to_string()]).active_references_valid);
}

#[test]
fn observation_waits_are_bounded_by_their_deadline() {
    assert_eq!(before_observation(5_000, 0), ObservationStep::Observe { within_ms: 5_000 });
    assert_eq!(before_observation(5_000, 5_000), ObservationStep::Expired);
    assert_eq!(after_observation(5_000, 100, Some(true), 100), ObservationStep::Verified);
    assert_eq!(after_observation(5_000, 100, None, 100), ObservationStep::Expired);
    assert_eq!(after_observation(5_000, 100, Some(false), 100), ObservationStep::Sleep { ms: 100 });
    assert_eq!(after_observation(5_000, 4_950, Some(false), 100), ObservationStep::Sleep { ms: 50 });
    assert_eq!(after_observation(5_000, 5_000, Some(false), 100), ObservationStep::Expired);
    assert_eq!(uncertain_action_outcome(Some(true)), Ok(()));
    assert_eq!(uncertain_action_outcome(Some(false)), Err(AgentCommandError::PartialApply));
    assert_eq!(uncertain_action_outcome(None), Err(AgentCommandError::PartialApply));
}

fn proxy(enabled: bool, host: &str, port: u16) -> SystemProxyConfiguration {
    SystemProxyConfiguration {
        enabled,
        host: host.into(),
        port,
        bypass: "localhost;127.*".into(),
    }
}

#[test]
fn proxy_repair_needs_a_running_core_and_an_enabled_foreign_endpoint() {
    let foreign = proxy(true, "10.0.0.2", 8080);
    assert_eq!(check_proxy_repair(AgentCoreState::Running, true, &foreign, 7890), Ok(()));
    assert_eq!(
        check_proxy_repair(AgentCoreState::Stopped, true, &foreign, 7890),
        Err(AgentCommandError::NetworkStateChanged)
    );
    assert_eq!(
        check_proxy_repair(AgentCoreState::Running, false, &foreign, 7890),
        Err(AgentCommandError::NetworkStateChanged)
    );
    assert_eq!(
        check_proxy_repair(AgentCoreState::Running, true, &proxy(false, "10.0.0.2", 8080), 7890),
        Err(AgentCommandError::NetworkStateChanged)
    );
    assert_eq!(
        check_proxy_repair(AgentCoreState::Running, true, &proxy(true, "127.0.0.1", 7890), 7890),
        Err(AgentCommandError::NetworkStateChanged)
    );

    let repaired = repaired_proxy(&foreign, 7890);
    assert!(repaired.enabled);
    assert_eq!(repaired.host, "127.0.0.1");
    assert_eq!(repaired.port, 7890);
    assert_eq!(repaired.bypass, foreign.bypass);
}

#[test]
fn stale_proxy_disable_needs_a_stopped_core_and_the_local_endpoint() {
    let local = proxy(true, "127.0.0.1", 7890);
    assert_eq!(check_stale_proxy_disable(AgentCoreState::Stopped, &local, 7890), Ok(()));
    assert_eq!(
        check_stale_proxy_disable(AgentCoreState::Running, &local, 7890),
        Err(AgentCommandError::NetworkStateChanged)
    );
    assert_eq!(
        check_stale_proxy_disable(AgentCoreState::Stopped, &local, 7891),
        Err(AgentCommandError::NetworkStateChanged)
    );
    let disabled = disabled_proxy(&local);
    assert!(!disabled.enabled);
    assert_eq!(disabled.host, local.host);
    assert_eq!(disabled.port, local.port);
    assert_eq!(disabled.bypass, local.bypass);
}

#[test]
fn runtime_values_map_onto_the_closed_agent_values() {
    assert_eq!(map_run_type(RunType::Normal), AgentRunType::Normal);
    assert_eq!(map_run_type(RunType::Service), AgentRunType::Service);
    assert_eq!(map_run_type(RunType::Elevated), AgentRunType::Elevated);
    assert_eq!(map_core_state(CoreState::Running), AgentCoreState::Running);
    assert_eq!(map_core_state(CoreState::Stopped), AgentCoreState::Stopped);
    assert_eq!(to_runtime_routing_mode(AgentRoutingMode::Rule), RuntimeRoutingMode::Rule);
    assert_eq!(to_runtime_routing_mode(AgentRoutingMode::Global), RuntimeRoutingMode::Global);
    assert_eq!(to_runtime_routing_mode(AgentRoutingMode::Direct), RuntimeRoutingMode::Direct);
}

fn drive_change(mutations: u8, outcomes: &[bool]) -> Option<Result<(), AgentCommandError>> {
    let mut stage = ChangeStage::Applying { step: 0 };
    for &succeeded in outcomes {
        match change_step(mutations, stage, succeeded) {
            ChangeStep::Next(next) => stage = next,
            ChangeStep::Finished(result) => return Some(result),
        }
    }
    None
}

#[test]
fn changes_apply_each_mutation_then_verify_or_roll_back() {
    assert!(matches!(
        change_step(2, ChangeStage::Applying { step: 0 }, true),
        ChangeStep::Next(ChangeStage::Applying { step: 1 })
    ));
    assert!(matches!(
        change_step(2, ChangeStage::Applying { step: 1 }, true),
        ChangeStep::Next(ChangeStage::Verifying)
    ));
    assert_eq!(drive_change(2, &[true, true, true]), Some(Ok(())));
    assert_eq!(
        drive_change(2, &[true, false, true]),
        Some(Err(AgentCommandError::ActionFailed))
    );
    assert_eq!(
        drive_change(2, &[true, true, false, true]),
        Some(Err(AgentCommandError::VerificationFailed))
    );
    assert_eq!(
        drive_change(1, &[false, false]),
        Some(Err(AgentCommandError::PartialApply))
    );
    assert_eq!(
        drive_change(1, &[true, false, false]),
        Some(Err(AgentCommandError::PartialApply))
    );
    assert_eq!(drive_change(1, &[true]), None);
}

#[test]
fn stale_proxy_disable_refuses_a_running_core_before_reading() {
    assert_eq!(start_stale_proxy_disable(AgentCoreState::Stopped), Ok(()));
    assert_eq!(
        start_stale_proxy_disable(AgentCoreState::Running),
        Err(AgentCommandError::NetworkStateChanged)
    );
    assert_eq!(
        start_stale_proxy_disable(AgentCoreState::Unknown),
        Err(AgentCommandError::NetworkStateChanged)
    );
}

#[test]
fn stale_proxy_read_goes_on_only_for_the_local_endpoint() {
    let local = proxy(true, "127.0.0.1", 7890);
    assert_eq!(check_stale_proxy_read(Ok(local.clone()), 7890), Ok(local));
    assert_eq!(
        check_stale_proxy_read(Ok(proxy(true, "10.0.0.1", 7890)), 7890),
        Err(AgentCommandError::NetworkStateChanged)
    );
    assert_eq!(
        check_stale_proxy_read(Ok(proxy(false, "127.0.0.1", 7890)), 7890),
        Err(AgentCommandError::NetworkStateChanged)
    );
    assert_eq!(
        check_stale_proxy_read(Err(AgentCommandError::ActionFailed), 7890),
        Err(AgentCommandError::ActionFailed)
    );
}

#[test]
fn stale_proxy_is_verified_only_by_a_reread_that_shows_it_off() {
    assert!(stale_proxy_is_off(&Ok(proxy(false, "127.0.0.1", 7890))));
    assert!(!stale_proxy_is_off(&Ok(proxy(true, "127.0.0.1", 7890))));
    assert!(!stale_proxy_is_off(&Err(AgentCommandError::ActionFailed)));
    assert!(proxy_restored(true, true));
    assert!(!proxy_restored(true, false));
    assert!(!proxy_restored(false, true));
}
