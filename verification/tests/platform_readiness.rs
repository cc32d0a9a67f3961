use chimera_agent::host_connectivity::unavailable_host_connectivity;
use chimera_agent::model::{
    AgentAppliedState, AgentCoreSnapshot, AgentCoreState, AgentPlatformReadinessReason,
    AgentProcessPrivilegeStatus, AgentRoutingMode, AgentRunType, AgentSelectedCore,
    AgentServiceSnapshot, AgentServiceState, AgentSystemDnsVerificationStatus,
    AgentTunPermissionReadiness, AgentTunSnapshot, AgentTunVerificationStatus,
};
use chimera_agent::platform_readiness::{classify_platform_readiness, PrivilegeCache};

#[test]
fn tun_not_requested_never_degrades_for_unavailable_privilege_or_dns_observation() {
    let readiness = classify_platform_readiness(
        AgentProcessPrivilegeStatus::Unknown,
        &core_snapshot(AgentRunType::Unknown),
        &service(AgentServiceState::Unknown, false),
        &tun(
            false,
            Some(false),
            Some(false),
            AgentAppliedState::Consistent,
        ),
        &unavailable_host_connectivity(),
    );

    assert_eq!(
        readiness.tun_permission,
        AgentTunPermissionReadiness::NotRequired
    );
    assert_eq!(
        readiness.tun_verification,
        AgentTunVerificationStatus::NotRequested
    );
    assert_eq!(
        readiness.system_dns_verification,
        AgentSystemDnsVerificationStatus::NotRequired
    );
    assert!(readiness.reasons.is_empty());
}

#[test]
fn verified_tun_proves_permission_readiness_without_guessing_platform_details() {
    let mut connectivity = unavailable_host_connectivity();
    connectivity.dns_configured = Some(true);
    connectivity.dns_resolves = Some(true);
    let readiness = classify_platform_readiness(
        AgentProcessPrivilegeStatus::Standard,
        &core_snapshot(AgentRunType::Normal),
        &service(AgentServiceState::NotInstalled, false),
        &tun(true, Some(true), Some(true), AgentAppliedState::Consistent),
        &connectivity,
    );

    assert_eq!(
        readiness.tun_permission,
        AgentTunPermissionReadiness::Satisfied
    );
    assert_eq!(
        readiness.tun_verification,
        AgentTunVerificationStatus::Verified
    );
    assert_eq!(
        readiness.system_dns_verification,
        AgentSystemDnsVerificationStatus::Verified
    );
    assert!(readiness.reasons.is_empty());
}

#[test]
fn standard_process_uses_service_as_a_closed_alternative_or_requires_permission() {
    let unavailable_tun = tun(true, Some(true), None, AgentAppliedState::Unknown);
    let with_service = classify_platform_readiness(
        AgentProcessPrivilegeStatus::Standard,
        &core_snapshot(AgentRunType::Normal),
        &service(AgentServiceState::Stopped, false),
        &unavailable_tun,
        &unavailable_host_connectivity(),
    );
    assert_eq!(
        with_service.tun_permission,
        AgentTunPermissionReadiness::ServiceAlternativeAvailable
    );
    assert!(
        with_service
            .reasons
            .contains(&AgentPlatformReadinessReason::ServiceModeAvailable)
    );

    let without_service = classify_platform_readiness(
        AgentProcessPrivilegeStatus::Standard,
        &core_snapshot(AgentRunType::Normal),
        &service(AgentServiceState::NotInstalled, false),
        &unavailable_tun,
        &unavailable_host_connectivity(),
    );
    assert_eq!(
        without_service.tun_permission,
        AgentTunPermissionReadiness::Required
    );
    assert!(
        without_service
            .reasons
            .contains(&AgentPlatformReadinessReason::PermissionRequired)
    );

    let incompatible_service = AgentServiceSnapshot {
        desired_enabled: true,
        state: AgentServiceState::Stopped,
        ipc_connected: false,
        runtime_compatible: Some(false),
    };
    let incompatible = classify_platform_readiness(
        AgentProcessPrivilegeStatus::Standard,
        &core_snapshot(AgentRunType::Normal),
        &incompatible_service,
        &unavailable_tun,
        &unavailable_host_connectivity(),
    );
    assert_eq!(
        incompatible.tun_permission,
        AgentTunPermissionReadiness::Required
    );
    assert_eq!(incompatible.service_mode_available, Some(false));
}

#[test]
fn dns_acceptance_states_are_closed() {
    let mut connectivity = unavailable_host_connectivity();
    connectivity.dns_configured = Some(false);
    let not_configured = classify_platform_readiness(
        AgentProcessPrivilegeStatus::Elevated,
        &core_snapshot(AgentRunType::Elevated),
        &service(AgentServiceState::NotInstalled, false),
        &tun(true, Some(true), Some(true), AgentAppliedState::Consistent),
        &connectivity,
    );
    assert_eq!(
        not_configured.system_dns_verification,
        AgentSystemDnsVerificationStatus::NotConfigured
    );

    connectivity.dns_configured = Some(true);
    connectivity.dns_resolves = Some(false);
    let resolution_failed = classify_platform_readiness(
        AgentProcessPrivilegeStatus::Elevated,
        &core_snapshot(AgentRunType::Elevated),
        &service(AgentServiceState::NotInstalled, false),
        &tun(true, Some(true), Some(true), AgentAppliedState::Consistent),
        &connectivity,
    );
    assert_eq!(
        resolution_failed.system_dns_verification,
        AgentSystemDnsVerificationStatus::ResolutionFailed
    );
}

fn core_snapshot(run_type: AgentRunType) -> AgentCoreSnapshot {
    AgentCoreSnapshot {
        state: AgentCoreState::Running,
        run_type,
        selected_core: AgentSelectedCore::Mihomo,
        state_changed_at: 0,
        runtime_config_present: true,
        routing_mode: Some(AgentRoutingMode::Rule),
        observed_routing_mode: Some(AgentRoutingMode::Rule),
        applied_consistency: AgentAppliedState::Consistent,
    }
}

fn service(state: AgentServiceState, ipc_connected: bool) -> AgentServiceSnapshot {
    AgentServiceSnapshot {
        desired_enabled: false,
        state,
        ipc_connected,
        runtime_compatible: match state {
            AgentServiceState::Stopped | AgentServiceState::Running => Some(true),
            AgentServiceState::NotInstalled | AgentServiceState::Unknown => None,
        },
    }
}

fn tun(
    desired_enabled: bool,
    generated_runtime_enabled: Option<bool>,
    observed_enabled: Option<bool>,
    applied_consistency: AgentAppliedState,
) -> AgentTunSnapshot {
    AgentTunSnapshot {
        desired_enabled,
        generated_runtime_enabled,
        observed_enabled,
        applied_consistency,
    }
}

#[test]
fn unknown_privilege_is_not_cached_and_does_not_mask_recovery() {
    let mut cache = PrivilegeCache::new();
    assert_eq!(cache.cached_status(), None);
    cache.store_status(AgentProcessPrivilegeStatus::Unknown);
    assert_eq!(cache.cached_status(), None);
    cache.store_status(AgentProcessPrivilegeStatus::Elevated);
    assert_eq!(cache.cached_status(), Some(AgentProcessPrivilegeStatus::Elevated));
    cache.store_status(AgentProcessPrivilegeStatus::Unknown);
    assert_eq!(cache.cached_status(), Some(AgentProcessPrivilegeStatus::Elevated));
}
