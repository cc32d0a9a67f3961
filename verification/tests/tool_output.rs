use chimera_agent::host_connectivity::unavailable_host_connectivity;
use chimera_agent::model::{
    AgentAppliedState, AgentConnectorState, AgentCoreSnapshot, AgentCoreState, AgentHealth,
    AgentHostScope, AgentNetworkSnapshot, AgentOsFamily, AgentPlatformReadinessSnapshot,
    AgentPrivacyBoundary, AgentProcessPrivilegeStatus, AgentProfileSnapshot, AgentRoutingMode,
    AgentRunType, AgentSelectedCore, AgentServiceSnapshot, AgentServiceState,
    AgentSystemDnsVerificationStatus, AgentSystemProxySnapshot, AgentTelemetrySnapshot,
    AgentTunPermissionReadiness, AgentTunSnapshot, AgentTunVerificationStatus,
};
use chimera_agent::registry::{project_tool_output, AgentToolKind, AgentToolOutput};

fn snapshot() -> AgentNetworkSnapshot {
    AgentNetworkSnapshot {
        schema_version: 1,
        revision: "revision-42".into(),
        captured_at: 42,
        app_version: "test".into(),
        os_family: AgentOsFamily::Unknown,
        health: AgentHealth::Healthy,
        core: AgentCoreSnapshot {
            state: AgentCoreState::Running,
            run_type: AgentRunType::Normal,
            selected_core: AgentSelectedCore::Mihomo,
            state_changed_at: 0,
            runtime_config_present: true,
            routing_mode: Some(AgentRoutingMode::Rule),
            observed_routing_mode: Some(AgentRoutingMode::Rule),
            applied_consistency: AgentAppliedState::Consistent,
        },
        service: AgentServiceSnapshot {
            desired_enabled: false,
            state: AgentServiceState::NotInstalled,
            ipc_connected: false,
            runtime_compatible: None,
        },
        system_proxy: AgentSystemProxySnapshot {
            desired_enabled: false,
            observed_enabled: Some(false),
            observed_host_scope: AgentHostScope::Loopback,
            observed_port: Some(7890),
            expected_mixed_port: 7891,
            matches_expected_endpoint: Some(true),
        },
        tun: AgentTunSnapshot {
            desired_enabled: false,
            generated_runtime_enabled: Some(false),
            observed_enabled: None,
            applied_consistency: AgentAppliedState::Unknown,
        },
        profiles: AgentProfileSnapshot {
            total_count: 5,
            active_count: 1,
            remote_count: 0,
            local_count: 1,
            active_references_valid: true,
        },
        telemetry: AgentTelemetrySnapshot {
            state: AgentConnectorState::Connected,
            active_connection_count: Some(0),
            upload_speed: Some(0),
            download_speed: Some(0),
            upload_total: Some(0),
            download_total: Some(0),
            recent_error_count: 0,
        },
        connectivity: unavailable_host_connectivity(),
        platform_readiness: AgentPlatformReadinessSnapshot {
            process_privilege: AgentProcessPrivilegeStatus::Standard,
            service_mode_available: Some(false),
            tun_permission: AgentTunPermissionReadiness::NotRequired,
            tun_verification: AgentTunVerificationStatus::NotRequested,
            system_dns_verification: AgentSystemDnsVerificationStatus::NotRequired,
            reasons: Vec::new(),
        },
        findings: Vec::new(),
        probe_failures: Vec::new(),
        recommendations: Vec::new(),
        privacy: AgentPrivacyBoundary::privacy_safe(),
    }
}

#[test]
fn system_snapshot_tool_summarizes_identity_health_core_and_privacy() {
    let Some(AgentToolOutput::SystemSnapshot(output)) =
        project_tool_output(AgentToolKind::SystemSnapshot, snapshot())
    else {
        panic!("system.snapshot projected to the wrong output");
    };
    assert_eq!(output.captured_at, 42);
    assert_eq!(output.app_version, "test");
    assert_eq!(output.core_state, AgentCoreState::Running);
    assert_eq!(output.run_type, AgentRunType::Normal);
    assert_eq!(output.selected_core, AgentSelectedCore::Mihomo);
    assert_eq!(output.privacy, AgentPrivacyBoundary::privacy_safe());
}

#[test]
fn diagnosis_tool_returns_the_whole_snapshot_and_probe_has_no_snapshot_output() {
    assert_eq!(
        project_tool_output(AgentToolKind::NetworkDiagnose, snapshot()),
        Some(AgentToolOutput::NetworkDiagnose(snapshot()))
    );
    assert_eq!(project_tool_output(AgentToolKind::NetworkProbe, snapshot()), None);
}

#[test]
fn status_tools_project_their_snapshot_sections() {
    let Some(AgentToolOutput::CoreStatus(core)) =
        project_tool_output(AgentToolKind::CoreStatus, snapshot())
    else {
        panic!("core.status projected to the wrong output");
    };
    assert_eq!(core.routing_mode, Some(AgentRoutingMode::Rule));

    let Some(AgentToolOutput::ProxyStatus(proxy)) =
        project_tool_output(AgentToolKind::ProxyStatus, snapshot())
    else {
        panic!("proxy.status projected to the wrong output");
    };
    assert_eq!(proxy.observed_port, Some(7890));
    assert_eq!(proxy.expected_mixed_port, 7891);

    let Some(AgentToolOutput::TunStatus(tun)) =
        project_tool_output(AgentToolKind::TunStatus, snapshot())
    else {
        panic!("tun.status projected to the wrong output");
    };
    assert!(!tun.desired_enabled);
    assert_eq!(tun.generated_runtime_enabled, Some(false));

    let Some(AgentToolOutput::ProfileSummary(profiles)) =
        project_tool_output(AgentToolKind::ProfileSummary, snapshot())
    else {
        panic!("profile.summary projected to the wrong output");
    };
    assert_eq!(profiles.total_count, 5);
    assert_eq!(profiles.active_count, 1);

    let Some(AgentToolOutput::ServiceStatus(service)) =
        project_tool_output(AgentToolKind::ServiceStatus, snapshot())
    else {
        panic!("service.status projected to the wrong output");
    };
    assert_eq!(service.state, AgentServiceState::NotInstalled);
    assert_eq!(service.runtime_compatible, None);
}
