use chimera_agent::diagnostics::{ServiceLifecycleStatus, ServiceStatusProbe, SystemProxyConfiguration};
use chimera_agent::model::{
    AgentConnectorState, AgentCoreState, AgentHealth, AgentHostConnectivityStatus, AgentOsFamily,
    AgentProbeCode, AgentProcessPrivilegeStatus, AgentProfileSnapshot, AgentRoutingMode,
    AgentRunType, AgentSelectedCore, AgentServiceState, AgentTelemetrySnapshot,
    NETWORK_SNAPSHOT_SCHEMA_VERSION,
};
use chimera_agent::revision::snapshot_revision;
use chimera_agent::runtime::{
    routing_mode_target_is_applied, service_mode_target_is_applied,
    system_proxy_target_is_applied, tun_target_is_applied,
};
use chimera_agent::snapshot::{
    collect_network_snapshot, collect_snapshot_sections, AgentConfigurationSnapshot,
    CoreLifecycleStatus, CoreRuntimeObservation, NetworkObservations,
};

fn configuration() -> AgentConfigurationSnapshot {
    AgentConfigurationSnapshot {
        expected_mixed_port: 7890,
        selected_core: AgentSelectedCore::Mihomo,
        runtime_config_present: true,
        routing_mode: Some(AgentRoutingMode::Rule),
        generated_tun_enabled: Some(false),
        secret_is_weak: false,
        desired_service_mode: false,
        desired_system_proxy: true,
        desired_tun: false,
        profiles: AgentProfileSnapshot {
            total_count: 1,
            active_count: 1,
            remote_count: 0,
            local_count: 1,
            active_references_valid: true,
        },
    }
}

fn telemetry() -> AgentTelemetrySnapshot {
    AgentTelemetrySnapshot {
        state: AgentConnectorState::Connected,
        active_connection_count: Some(3),
        upload_speed: Some(0),
        download_speed: Some(0),
        upload_total: Some(10),
        download_total: Some(20),
        recent_error_count: 0,
    }
}

fn observations() -> NetworkObservations {
    NetworkObservations {
        configuration: configuration(),
        core_status: Some(CoreLifecycleStatus {
            state: AgentCoreState::Running,
            run_type: AgentRunType::Normal,
            state_changed_at: 5,
        }),
        routing: Ok(CoreRuntimeObservation {
            routing_mode: AgentRoutingMode::Rule,
            tun_enabled: Some(false),
        }),
        service_ipc_connected: false,
        service_status: ServiceStatusProbe::Reported(ServiceLifecycleStatus {
            state: AgentServiceState::NotInstalled,
            runtime_compatible: None,
        }),
        system_proxy: Some(SystemProxyConfiguration {
            enabled: true,
            host: "127.0.0.1".into(),
            port: 7890,
            bypass: String::new(),
        }),
        host_connectivity: None,
        process_privilege: Some(AgentProcessPrivilegeStatus::Standard),
        telemetry: Some(telemetry()),
    }
}

#[test]
fn sections_carry_each_probe_and_report_missing_ones_as_failures() {
    let sections = collect_snapshot_sections(observations());
    assert_eq!(sections.core.state, AgentCoreState::Running);
    assert_eq!(sections.core.observed_routing_mode, Some(AgentRoutingMode::Rule));
    assert_eq!(sections.system_proxy.observed_enabled, Some(true));
    assert_eq!(sections.system_proxy.observed_port, Some(7890));
    assert_eq!(sections.tun.observed_enabled, Some(false));
    assert_eq!(sections.telemetry, telemetry());
    assert_eq!(
        sections.connectivity.status,
        AgentHostConnectivityStatus::Indeterminate
    );
    assert!(sections
        .probe_failures
        .iter()
        .any(|failure| failure.code == AgentProbeCode::HostConnectivityUnavailable));
    assert!(!sections
        .probe_failures
        .iter()
        .any(|failure| failure.code == AgentProbeCode::TelemetryUnavailable));
    assert_ne!(sections.health, AgentHealth::Healthy);

    let mut degraded = observations();
    degraded.telemetry = None;
    degraded.system_proxy = None;
    let sections = collect_snapshot_sections(degraded);
    let codes: Vec<AgentProbeCode> = sections.probe_failures.iter().map(|f| f.code).collect();
    assert!(codes.contains(&AgentProbeCode::TelemetryUnavailable));
    assert!(codes.contains(&AgentProbeCode::SystemProxyUnavailable));
    assert_eq!(sections.telemetry.state, AgentConnectorState::Unknown);
}

#[test]
fn snapshot_is_stamped_with_the_revision_of_its_sections() {
    let sections = collect_snapshot_sections(observations());
    let revision = snapshot_revision(
        &sections.core,
        &sections.service,
        &sections.system_proxy,
        &sections.tun,
        &sections.connectivity,
        &sections.platform_readiness,
    );
    let snapshot = collect_network_snapshot(sections, 42, "1.0.0".into(), AgentOsFamily::Linux);
    assert_eq!(snapshot.schema_version, NETWORK_SNAPSHOT_SCHEMA_VERSION);
    assert_eq!(snapshot.revision, revision);
    assert_eq!(snapshot.captured_at, 42);
    assert_eq!(snapshot.app_version, "1.0.0");
    assert_eq!(snapshot.os_family, AgentOsFamily::Linux);
    assert!(!snapshot.privacy.contains_raw_logs);
    assert!(!snapshot.privacy.contains_controller_secret);

    assert!(system_proxy_target_is_applied(&snapshot, true));
    assert!(!system_proxy_target_is_applied(&snapshot, false));
    assert!(routing_mode_target_is_applied(&snapshot, AgentRoutingMode::Rule));
    assert!(!routing_mode_target_is_applied(&snapshot, AgentRoutingMode::Global));
    assert!(!tun_target_is_applied(&snapshot, true));
    assert!(!service_mode_target_is_applied(&snapshot, true));
}
