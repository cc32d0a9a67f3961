//! Assembly of the network snapshot from what the probes observed: every section, the probe
//! failures in the order the probes report them, the findings, the health and the
//! recommendations.
use vstd::prelude::*;

use crate::diagnostics::{
    append_connectivity_finding, append_platform_readiness_findings, derive_findings,
    derive_health, proxy_observation, service_probe_failures, spec_connectivity_finding,
    spec_findings, spec_health, spec_readiness_findings, spec_summarize_service,
    spec_summarize_system_proxy, spec_tun_applied_consistency, summarize_service,
    summarize_system_proxy, tun_applied_consistency, ServiceStatusProbe, SystemProxyConfiguration,
};
use crate::host_connectivity::{empty_evidence, spec_diagnose, unavailable_host_connectivity};
use crate::model::{
    AgentAppliedState, AgentConnectorState, AgentCoreSnapshot, AgentCoreState, AgentFinding,
    AgentHealth, AgentHostConnectivitySnapshot, AgentHostConnectivityStatus, AgentNetworkSnapshot,
    AgentOsFamily, AgentPlatformReadinessSnapshot, AgentPrivacyBoundary, AgentProbeCode,
    AgentProbeFailure, AgentProcessPrivilegeStatus, AgentProfileSnapshot, AgentRoutingMode,
    AgentRunType, AgentSelectedCore, AgentServiceSnapshot, AgentSystemProxySnapshot,
    AgentTelemetrySnapshot, AgentTunPermissionReadiness, AgentTunSnapshot,
    NETWORK_SNAPSHOT_SCHEMA_VERSION,
};
use crate::planning::recommendations;
use crate::platform_readiness::{classify_platform_readiness, spec_classified};

verus! {

/// What the application's configuration says, reduced to what the agent reads.
#[derive(Debug, Clone, Copy)]
pub struct AgentConfigurationSnapshot {
    pub expected_mixed_port: u16,
    pub selected_core: AgentSelectedCore,
    pub runtime_config_present: bool,
    pub routing_mode: Option<AgentRoutingMode>,
    pub generated_tun_enabled: Option<bool>,
    pub secret_is_weak: bool,
    pub desired_service_mode: bool,
    pub desired_system_proxy: bool,
    pub desired_tun: bool,
    pub profiles: AgentProfileSnapshot,
}

/// What the core manager reports of the core.
#[derive(Debug, Clone, Copy)]
pub struct CoreLifecycleStatus {
    pub state: AgentCoreState,
    pub run_type: AgentRunType,
    pub state_changed_at: i64,
}

/// What the running core reports of its own configuration.
#[derive(Debug, Clone, Copy)]
pub struct CoreRuntimeObservation {
    pub routing_mode: AgentRoutingMode,
    pub tun_enabled: Option<bool>,
}

/// What every probe of one snapshot returned; `None` stands for a probe that timed out or
/// gave nothing, and the routing observation is read only while the core runs.
pub struct NetworkObservations {
    pub configuration: AgentConfigurationSnapshot,
    pub core_status: Option<CoreLifecycleStatus>,
    pub routing: Result<CoreRuntimeObservation, ()>,
    pub service_ipc_connected: bool,
    pub service_status: ServiceStatusProbe,
    pub system_proxy: Option<SystemProxyConfiguration>,
    pub host_connectivity: Option<AgentHostConnectivitySnapshot>,
    pub process_privilege: Option<AgentProcessPrivilegeStatus>,
    pub telemetry: Option<AgentTelemetrySnapshot>,
}

/// The sections of a snapshot, before its revision is known.
pub struct SnapshotSections {
    pub core: AgentCoreSnapshot,
    pub service: AgentServiceSnapshot,
    pub system_proxy: AgentSystemProxySnapshot,
    pub tun: AgentTunSnapshot,
    pub profiles: AgentProfileSnapshot,
    pub telemetry: AgentTelemetrySnapshot,
    pub connectivity: AgentHostConnectivitySnapshot,
    pub platform_readiness: AgentPlatformReadinessSnapshot,
    pub findings: Vec<AgentFinding>,
    pub probe_failures: Vec<AgentProbeFailure>,
    pub health: AgentHealth,
}

/// The core section, and the TUN state the core reported, if it did.
pub open spec fn spec_core_section(
    configuration: AgentConfigurationSnapshot,
    status: Option<CoreLifecycleStatus>,
    routing: Result<CoreRuntimeObservation, ()>,
) -> (AgentCoreSnapshot, Option<bool>) {
    let (state, run_type, changed_at) = match status {
        Some(s) => (s.state, s.run_type, s.state_changed_at),
        None => (AgentCoreState::Unknown, AgentRunType::Unknown, 0i64),
    };
    let base = AgentCoreSnapshot {
        state,
        run_type,
        selected_core: configuration.selected_core,
        state_changed_at: changed_at,
        runtime_config_present: configuration.runtime_config_present,
        routing_mode: configuration.routing_mode,
        observed_routing_mode: None,
        applied_consistency: AgentAppliedState::Unknown,
    };
    if state == AgentCoreState::Running {
        match routing {
            Ok(observed) => (
                AgentCoreSnapshot {
                    observed_routing_mode: Some(observed.routing_mode),
                    applied_consistency: if configuration.routing_mode == Some(
                        observed.routing_mode,
                    ) {
                        AgentAppliedState::Consistent
                    } else {
                        AgentAppliedState::Stale
                    },
                    ..base
                },
                observed.tun_enabled,
            ),
            Err(_) => (base, None),
        }
    } else {
        (base, None)
    }
}

/// The failures of the core probes: a status that timed out, then, for a running core, a
/// configuration that could not be read or that did not report TUN.
pub open spec fn core_failures(
    status: Option<CoreLifecycleStatus>,
    routing: Result<CoreRuntimeObservation, ()>,
) -> Seq<AgentProbeFailure> {
    match status {
        None => seq![AgentProbeFailure { code: AgentProbeCode::CoreStatusTimeout }],
        Some(s) => if s.state == AgentCoreState::Running {
            match routing {
                Ok(observed) => if observed.tun_enabled is None {
                    seq![AgentProbeFailure { code: AgentProbeCode::TunStatusUnavailable }]
                } else {
                    seq![]
                },
                Err(_) => seq![AgentProbeFailure { code: AgentProbeCode::CoreConfigUnavailable }],
            }
        } else {
            seq![]
        },
    }
}

pub fn core_section(
    configuration: &AgentConfigurationSnapshot,
    status: Option<CoreLifecycleStatus>,
    routing: Result<CoreRuntimeObservation, ()>,
    failures: &mut Vec<AgentProbeFailure>,
) -> (result: (AgentCoreSnapshot, Option<bool>))
    ensures
        result == spec_core_section(*configuration, status, routing),
        final(failures)@ == old(failures)@ + core_failures(status, routing),
{
    let ghost before = failures@;
    let (state, run_type, changed_at) = match status {
        Some(s) => (s.state, s.run_type, s.state_changed_at),
        None => {
            failures.push(AgentProbeFailure { code: AgentProbeCode::CoreStatusTimeout });
            (AgentCoreState::Unknown, AgentRunType::Unknown, 0i64)
        },
    };
    let mut core = AgentCoreSnapshot {
        state,
        run_type,
        selected_core: configuration.selected_core,
        state_changed_at: changed_at,
        runtime_config_present: configuration.runtime_config_present,
        routing_mode: configuration.routing_mode,
        observed_routing_mode: None,
        applied_consistency: AgentAppliedState::Unknown,
    };
    let mut observed_tun: Option<bool> = None;
    if core.state == AgentCoreState::Running {
        match routing {
            Ok(observed) => {
                core.observed_routing_mode = Some(observed.routing_mode);
                core.applied_consistency = if core.routing_mode == Some(observed.routing_mode) {
                    AgentAppliedState::Consistent
                } else {
                    AgentAppliedState::Stale
                };
                observed_tun = observed.tun_enabled;
                if observed_tun.is_none() {
                    failures.push(AgentProbeFailure { code: AgentProbeCode::TunStatusUnavailable });
                }
            },
            Err(_) => {
                failures.push(AgentProbeFailure { code: AgentProbeCode::CoreConfigUnavailable });
            },
        }
    }
    assert(failures@ =~= before + core_failures(status, routing));
    (core, observed_tun)
}

/// The telemetry section reported when the connector gave nothing.
pub open spec fn unknown_telemetry() -> AgentTelemetrySnapshot {
    AgentTelemetrySnapshot {
        state: AgentConnectorState::Unknown,
        active_connection_count: None,
        upload_speed: None,
        download_speed: None,
        upload_total: None,
        download_total: None,
        recent_error_count: 0,
    }
}

pub open spec fn failure_if(condition: bool, code: AgentProbeCode) -> Seq<AgentProbeFailure> {
    if condition {
        seq![AgentProbeFailure { code }]
    } else {
        seq![]
    }
}

pub open spec fn connectivity_finding_seq(status: AgentHostConnectivityStatus) -> Seq<AgentFinding> {
    match spec_connectivity_finding(status) {
        Some(finding) => seq![finding],
        None => seq![],
    }
}

fn push_failure(failures: &mut Vec<AgentProbeFailure>, condition: bool, code: AgentProbeCode)
    ensures
        final(failures)@ == old(failures)@ + failure_if(condition, code),
{
    if condition {
        failures.push(AgentProbeFailure { code });
    }
    assert(final(failures)@ =~= old(failures)@ + failure_if(condition, code));
}

/// Builds every section of a snapshot from what the probes returned.
pub fn collect_snapshot_sections(observations: NetworkObservations) -> (sections: SnapshotSections)
    ensures
        ({
            let configuration = observations.configuration;
            let (core, observed_tun) = spec_core_section(
                configuration,
                observations.core_status,
                observations.routing,
            );
            let service = spec_summarize_service(
                configuration.desired_service_mode,
                observations.service_ipc_connected,
                observations.service_status,
            );
            let proxy = spec_summarize_system_proxy(
                configuration.desired_system_proxy,
                configuration.expected_mixed_port,
                proxy_observation(observations.system_proxy),
            );
            let tun = AgentTunSnapshot {
                desired_enabled: configuration.desired_tun,
                generated_runtime_enabled: configuration.generated_tun_enabled,
                observed_enabled: observed_tun,
                applied_consistency: spec_tun_applied_consistency(
                    configuration.desired_tun,
                    configuration.generated_tun_enabled,
                    observed_tun,
                ),
            };
            let privilege = match observations.process_privilege {
                Some(p) => p,
                None => AgentProcessPrivilegeStatus::Unknown,
            };
            let telemetry = match observations.telemetry {
                Some(t) => t,
                None => unknown_telemetry(),
            };
            &&& sections.core == core
            &&& sections.service == service
            &&& sections.system_proxy == proxy
            &&& sections.tun == tun
            &&& sections.profiles == configuration.profiles
            &&& sections.telemetry == telemetry
            &&& match observations.host_connectivity {
                Some(c) => sections.connectivity == c,
                None => spec_diagnose(empty_evidence(), sections.connectivity),
            }
            &&& spec_classified(
                privilege,
                core,
                service,
                tun,
                sections.connectivity,
                sections.platform_readiness,
            )
            &&& sections.findings@ == spec_findings(
                core,
                service,
                proxy,
                tun,
                configuration.profiles,
                telemetry,
                configuration.secret_is_weak,
            ) + connectivity_finding_seq(sections.connectivity.status) + spec_readiness_findings(
                sections.platform_readiness,
            )
            &&& sections.probe_failures@ == core_failures(
                observations.core_status,
                observations.routing,
            ) + service_probe_failures(observations.service_status) + failure_if(
                observations.system_proxy is None,
                AgentProbeCode::SystemProxyUnavailable,
            ) + failure_if(
                sections.connectivity.status == AgentHostConnectivityStatus::Indeterminate,
                AgentProbeCode::HostConnectivityUnavailable,
            ) + failure_if(
                configuration.desired_tun && sections.platform_readiness.tun_permission
                    == AgentTunPermissionReadiness::Indeterminate,
                AgentProbeCode::PlatformReadinessUnavailable,
            ) + failure_if(observations.telemetry is None, AgentProbeCode::TelemetryUnavailable)
            &&& sections.health == spec_health(sections.findings@, sections.probe_failures@)
        }),
{
    let configuration = observations.configuration;
    let mut failures: Vec<AgentProbeFailure> = Vec::new();
    let (core, observed_tun) = core_section(
        &configuration,
        observations.core_status,
        observations.routing,
        &mut failures,
    );
    let ghost after_core = failures@;
    let service = summarize_service(
        configuration.desired_service_mode,
        observations.service_ipc_connected,
        observations.service_status,
        &mut failures,
    );
    let ghost after_service = failures@;
    let proxy_missing = observations.system_proxy.is_none();
    let system_proxy = summarize_system_proxy(
        configuration.desired_system_proxy,
        configuration.expected_mixed_port,
        observations.system_proxy,
        &mut failures,
    );
    let ghost after_proxy = failures@;
    let tun = AgentTunSnapshot {
        desired_enabled: configuration.desired_tun,
        generated_runtime_enabled: configuration.generated_tun_enabled,
        observed_enabled: observed_tun,
        applied_consistency: tun_applied_consistency(
            configuration.desired_tun,
            configuration.generated_tun_enabled,
            observed_tun,
        ),
    };
    let profiles = configuration.profiles;
    let connectivity = match observations.host_connectivity {
        Some(c) => c,
        None => unavailable_host_connectivity(),
    };
    push_failure(
        &mut failures,
        connectivity.status == AgentHostConnectivityStatus::Indeterminate,
        AgentProbeCode::HostConnectivityUnavailable,
    );
    let ghost after_connectivity = failures@;
    let privilege = match observations.process_privilege {
        Some(p) => p,
        None => AgentProcessPrivilegeStatus::Unknown,
    };
    let platform_readiness = classify_platform_readiness(
        privilege,
        &core,
        &service,
        &tun,
        &connectivity,
    );
    push_failure(
        &mut failures,
        tun.desired_enabled && platform_readiness.tun_permission
            == AgentTunPermissionReadiness::Indeterminate,
        AgentProbeCode::PlatformReadinessUnavailable,
    );
    let ghost after_readiness = failures@;
    let telemetry_missing = observations.telemetry.is_none();
    let telemetry = match observations.telemetry {
        Some(t) => t,
        None => AgentTelemetrySnapshot {
            state: AgentConnectorState::Unknown,
            active_connection_count: None,
            upload_speed: None,
            download_speed: None,
            upload_total: None,
            download_total: None,
            recent_error_count: 0,
        },
    };
    push_failure(&mut failures, telemetry_missing, AgentProbeCode::TelemetryUnavailable);
    proof {
        assert(failures@ =~= core_failures(observations.core_status, observations.routing)
            + service_probe_failures(observations.service_status) + failure_if(
            proxy_missing,
            AgentProbeCode::SystemProxyUnavailable,
        ) + failure_if(
            connectivity.status == AgentHostConnectivityStatus::Indeterminate,
            AgentProbeCode::HostConnectivityUnavailable,
        ) + failure_if(
            configuration.desired_tun && platform_readiness.tun_permission
                == AgentTunPermissionReadiness::Indeterminate,
            AgentProbeCode::PlatformReadinessUnavailable,
        ) + failure_if(telemetry_missing, AgentProbeCode::TelemetryUnavailable));
    }
    let mut findings = derive_findings(
        &core,
        &service,
        &system_proxy,
        &tun,
        &profiles,
        &telemetry,
        configuration.secret_is_weak,
    );
    append_connectivity_finding(&mut findings, connectivity.status);
    append_platform_readiness_findings(&mut findings, &platform_readiness);
    let health = derive_health(findings.as_slice(), failures.as_slice());
    SnapshotSections {
        core,
        service,
        system_proxy,
        tun,
        profiles,
        telemetry,
        connectivity,
        platform_readiness,
        findings,
        probe_failures: failures,
        health,
    }
}

/// The snapshot: the sections under the revision they digest to, with the recommendations that
/// the planner derives from them and a privacy-safe boundary.
pub fn collect_network_snapshot(
    sections: SnapshotSections,
    captured_at: i64,
    app_version: String,
    os_family: AgentOsFamily,
) -> (snapshot: AgentNetworkSnapshot)
    ensures
        snapshot.schema_version == NETWORK_SNAPSHOT_SCHEMA_VERSION,
        snapshot.revision@ == crate::revision::revision_of(
            crate::revision::revision_inputs_of(
                sections.core,
                sections.service,
                sections.system_proxy,
                sections.tun,
                sections.connectivity,
                sections.platform_readiness,
            ),
        ),
        snapshot.captured_at == captured_at,
        snapshot.app_version == app_version,
        snapshot.os_family == os_family,
        snapshot.health == sections.health,
        snapshot.core == sections.core,
        snapshot.service == sections.service,
        snapshot.system_proxy == sections.system_proxy,
        snapshot.tun == sections.tun,
        snapshot.profiles == sections.profiles,
        snapshot.telemetry == sections.telemetry,
        snapshot.connectivity == sections.connectivity,
        snapshot.platform_readiness == sections.platform_readiness,
        snapshot.findings == sections.findings,
        snapshot.probe_failures == sections.probe_failures,
        snapshot.privacy.is_privacy_safe(),
        snapshot.recommendations@.len() == crate::planning::spec_recommendation_candidates(
            snapshot,
        ).len(),
        forall|i: int|
            0 <= i < snapshot.recommendations@.len() ==> {
                let action = crate::planning::spec_recommendation_candidates(snapshot)[i];
                &&& (#[trigger] snapshot.recommendations@[i]).action == action
                &&& crate::planning::recommendation_reflects_plan(
                    snapshot.recommendations@[i],
                    crate::planning::spec_plan_action(snapshot, action),
                )
            },
{
    let revision = crate::revision::snapshot_revision(
        &sections.core,
        &sections.service,
        &sections.system_proxy,
        &sections.tun,
        &sections.connectivity,
        &sections.platform_readiness,
    );
    let mut snapshot = AgentNetworkSnapshot {
        schema_version: NETWORK_SNAPSHOT_SCHEMA_VERSION,
        revision,
        captured_at,
        app_version,
        os_family,
        health: sections.health,
        core: sections.core,
        service: sections.service,
        system_proxy: sections.system_proxy,
        tun: sections.tun,
        profiles: sections.profiles,
        telemetry: sections.telemetry,
        connectivity: sections.connectivity,
        platform_readiness: sections.platform_readiness,
        findings: sections.findings,
        probe_failures: sections.probe_failures,
        recommendations: Vec::new(),
        privacy: AgentPrivacyBoundary::privacy_safe(),
    };
    let recommended = recommendations(&snapshot);
    snapshot.recommendations = recommended;
    snapshot
}

} // verus!
