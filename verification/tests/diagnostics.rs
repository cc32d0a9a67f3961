use chimera_agent::diagnostics::{
    append_connectivity_finding, append_platform_readiness_findings, derive_findings,
    derive_health, host_scope, summarize_system_proxy, tun_applied_consistency,
};
use chimera_agent::model::{
    AgentAppliedState, AgentConnectorState, AgentCoreSnapshot, AgentCoreState, AgentFindingCode,
    AgentFindingSeverity, AgentHealth, AgentHostConnectivityStatus, AgentHostScope,
    AgentPlatformReadinessSnapshot, AgentProbeCode, AgentProbeFailure,
    AgentProcessPrivilegeStatus, AgentProfileSnapshot, AgentRoutingMode, AgentRunType,
    AgentSelectedCore, AgentServiceSnapshot, AgentServiceState, AgentSystemDnsVerificationStatus,
    AgentSystemProxySnapshot, AgentTelemetrySnapshot, AgentTunPermissionReadiness,
    AgentTunSnapshot, AgentTunVerificationStatus,
};

#[test]
fn classifies_only_loopback_hosts_as_loopback() {
    assert_eq!(host_scope("127.0.0.1"), AgentHostScope::Loopback);
    assert_eq!(host_scope("::1"), AgentHostScope::Loopback);
    assert_eq!(host_scope("localhost"), AgentHostScope::Loopback);
    assert_eq!(host_scope("192.168.1.1"), AgentHostScope::NonLoopback);
}

#[test]
fn tun_consistency_requires_desired_generated_and_observed_state() {
    assert_eq!(
        tun_applied_consistency(true, Some(true), Some(true)),
        AgentAppliedState::Consistent
    );
    assert_eq!(
        tun_applied_consistency(false, Some(false), Some(false)),
        AgentAppliedState::Consistent
    );
    assert_eq!(
        tun_applied_consistency(true, Some(false), Some(true)),
        AgentAppliedState::Stale
    );
    assert_eq!(
        tun_applied_consistency(false, Some(false), Some(true)),
        AgentAppliedState::Stale
    );
    assert_eq!(
        tun_applied_consistency(true, Some(true), None),
        AgentAppliedState::Unknown
    );
}

#[test]
fn unknown_core_state_does_not_claim_the_core_is_stopped() {
    let core = AgentCoreSnapshot {
        state: AgentCoreState::Unknown,
        run_type: AgentRunType::Unknown,
        selected_core: AgentSelectedCore::Mihomo,
        state_changed_at: 0,
        runtime_config_present: true,
        routing_mode: Some(AgentRoutingMode::Rule),
        observed_routing_mode: None,
        applied_consistency: AgentAppliedState::Unknown,
    };
    let service = AgentServiceSnapshot {
        desired_enabled: false,
        state: AgentServiceState::Unknown,
        ipc_connected: false,
        runtime_compatible: None,
    };
    let proxy = AgentSystemProxySnapshot {
        desired_enabled: true,
        observed_enabled: Some(true),
        observed_host_scope: AgentHostScope::Loopback,
        observed_port: Some(7890),
        expected_mixed_port: 7890,
        matches_expected_endpoint: Some(true),
    };
    let tun = AgentTunSnapshot {
        desired_enabled: false,
        generated_runtime_enabled: Some(false),
        observed_enabled: Some(false),
        applied_consistency: AgentAppliedState::Consistent,
    };
    let profiles = AgentProfileSnapshot {
        total_count: 1,
        active_count: 1,
        remote_count: 0,
        local_count: 1,
        active_references_valid: true,
    };
    let telemetry = AgentTelemetrySnapshot {
        state: AgentConnectorState::Unknown,
        active_connection_count: None,
        upload_speed: None,
        download_speed: None,
        upload_total: None,
        download_total: None,
        recent_error_count: 0,
    };

    let findings = derive_findings(&core, &service, &proxy, &tun, &profiles, &telemetry, false);
    assert!(
        !findings
            .iter()
            .any(|finding| { finding.code == AgentFindingCode::SystemProxyWithoutRunningCore })
    );
}

#[test]
fn connectivity_statuses_map_to_stable_findings_and_health() {
    let cases = [
        (
            AgentHostConnectivityStatus::LinkDisconnected,
            Some((
                AgentFindingCode::HostLinkDisconnected,
                AgentFindingSeverity::Critical,
            )),
            AgentHealth::Critical,
        ),
        (
            AgentHostConnectivityStatus::AddressUnavailable,
            Some((
                AgentFindingCode::HostAddressUnavailable,
                AgentFindingSeverity::Critical,
            )),
            AgentHealth::Critical,
        ),
        (
            AgentHostConnectivityStatus::DefaultRouteUnavailable,
            Some((
                AgentFindingCode::HostDefaultRouteUnavailable,
                AgentFindingSeverity::Critical,
            )),
            AgentHealth::Critical,
        ),
        (
            AgentHostConnectivityStatus::DnsUnavailable,
            Some((
                AgentFindingCode::HostDnsUnavailable,
                AgentFindingSeverity::Critical,
            )),
            AgentHealth::Critical,
        ),
        (
            AgentHostConnectivityStatus::CaptivePortalSuspected,
            Some((
                AgentFindingCode::HostCaptivePortalSuspected,
                AgentFindingSeverity::Warning,
            )),
            AgentHealth::Warning,
        ),
        (
            AgentHostConnectivityStatus::InternetUnreachable,
            Some((
                AgentFindingCode::HostInternetUnreachable,
                AgentFindingSeverity::Critical,
            )),
            AgentHealth::Critical,
        ),
        (
            AgentHostConnectivityStatus::OnlineIpv4Only,
            Some((AgentFindingCode::HostIpv4Only, AgentFindingSeverity::Info)),
            AgentHealth::Healthy,
        ),
        (
            AgentHostConnectivityStatus::OnlineIpv6Only,
            Some((AgentFindingCode::HostIpv6Only, AgentFindingSeverity::Info)),
            AgentHealth::Healthy,
        ),
        (
            AgentHostConnectivityStatus::OnlineDualStack,
            None,
            AgentHealth::Healthy,
        ),
        (
            AgentHostConnectivityStatus::Indeterminate,
            None,
            AgentHealth::Degraded,
        ),
    ];

    for (status, expected, expected_health) in cases {
        let mut findings = Vec::new();
        append_connectivity_finding(&mut findings, status);
        match expected {
            Some((code, severity)) => {
                assert_eq!(findings.len(), 1, "status {status:?}");
                assert_eq!(findings[0].code, code, "status {status:?}");
                assert_eq!(findings[0].severity, severity, "status {status:?}");
            }
            None => assert!(findings.is_empty(), "status {status:?}"),
        }
        let failures = if status == AgentHostConnectivityStatus::Indeterminate {
            vec![AgentProbeFailure {
                code: AgentProbeCode::HostConnectivityUnavailable,
            }]
        } else {
            Vec::new()
        };
        assert_eq!(derive_health(&findings, &failures), expected_health);
    }
}


#[test]
fn readiness_findings_and_health_are_relevant_only_to_requested_tun() {
    let cases = [
        (
            readiness(
                AgentTunPermissionReadiness::NotRequired,
                AgentSystemDnsVerificationStatus::NotRequired,
            ),
            None,
            AgentHealth::Healthy,
        ),
        (
            readiness(
                AgentTunPermissionReadiness::Required,
                AgentSystemDnsVerificationStatus::Verified,
            ),
            Some(AgentFindingCode::TunPermissionRequired),
            AgentHealth::Warning,
        ),
        (
            readiness(
                AgentTunPermissionReadiness::Satisfied,
                AgentSystemDnsVerificationStatus::ResolutionFailed,
            ),
            Some(AgentFindingCode::TunSystemDnsUnverified),
            AgentHealth::Warning,
        ),
    ];

    for (readiness, expected_code, expected_health) in cases {
        let mut findings = Vec::new();
        append_platform_readiness_findings(&mut findings, &readiness);
        assert_eq!(findings.first().map(|finding| finding.code), expected_code);
        assert_eq!(derive_health(&findings, &[]), expected_health);
    }

    let degraded = readiness(
        AgentTunPermissionReadiness::Indeterminate,
        AgentSystemDnsVerificationStatus::Unavailable,
    );
    let mut findings = Vec::new();
    append_platform_readiness_findings(&mut findings, &degraded);
    assert_eq!(
        derive_health(
            &findings,
            &[AgentProbeFailure {
                code: AgentProbeCode::PlatformReadinessUnavailable,
            }],
        ),
        AgentHealth::Degraded
    );
}



fn readiness(
    tun_permission: AgentTunPermissionReadiness,
    system_dns_verification: AgentSystemDnsVerificationStatus,
) -> AgentPlatformReadinessSnapshot {
    AgentPlatformReadinessSnapshot {
        process_privilege: AgentProcessPrivilegeStatus::Standard,
        service_mode_available: Some(false),
        tun_permission,
        tun_verification: if tun_permission == AgentTunPermissionReadiness::NotRequired {
            AgentTunVerificationStatus::NotRequested
        } else {
            AgentTunVerificationStatus::Unavailable
        },
        system_dns_verification,
        reasons: Vec::new(),
    }
}


#[test]
fn unavailable_system_proxy_probe_fails_closed() {
    let mut failures = Vec::new();
    let summary = summarize_system_proxy(true, 7890, None, &mut failures);

    assert_eq!(summary.observed_enabled, None);
    assert_eq!(summary.observed_host_scope, AgentHostScope::Unknown);
    assert_eq!(summary.observed_port, None);
    assert_eq!(summary.matches_expected_endpoint, None);
    assert_eq!(failures.len(), 1);
    assert_eq!(failures[0].code, AgentProbeCode::SystemProxyUnavailable);
}

