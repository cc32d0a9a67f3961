//! Summaries of probe results, findings derived from them, and the overall health.
use vstd::prelude::*;

use crate::ip::{address_is_loopback, is_loopback, parse_ip_address, std_parsed_ip};
use crate::model::{
    AgentAppliedState, AgentConnectorState, AgentCoreSnapshot, AgentCoreState, AgentFinding,
    AgentFindingCode, AgentFindingSeverity, AgentHealth, AgentHostConnectivityStatus,
    AgentHostScope, AgentPlatformReadinessSnapshot, AgentProbeCode, AgentProbeFailure,
    AgentProfileSnapshot, AgentServiceSnapshot, AgentServiceState, AgentSystemDnsVerificationStatus,
    AgentSystemProxySnapshot, AgentTelemetrySnapshot, AgentTunPermissionReadiness, AgentTunSnapshot,
};
use crate::text::{ascii_lowercase, chars_are_blank, chars_equal, chars_of, is_blank, to_ascii_lowercase};

verus! {

/// The lifecycle status that the service reported.
#[derive(Debug, Clone, Copy, PartialEq, Eq, Structural)]
pub struct ServiceLifecycleStatus {
    pub state: AgentServiceState,
    pub runtime_compatible: Option<bool>,
}

/// The outcome of a bounded service status query.
#[derive(Debug, Clone, Copy, PartialEq, Eq, Structural)]
pub enum ServiceStatusProbe {
    Reported(ServiceLifecycleStatus),
    Failed,
    TimedOut,
}

/// The host system proxy configuration as read from the operating system.
#[derive(Debug, Clone, PartialEq, Eq)]
pub struct SystemProxyConfiguration {
    pub enabled: bool,
    pub host: String,
    pub port: u16,
    pub bypass: String,
}

pub open spec fn spec_tun_applied_consistency(desired: bool, generated: Option<bool>, observed: Option<bool>) -> AgentAppliedState {
    if (generated is Some && generated != Some(desired)) || (observed is Some && observed != Some(desired)) {
        AgentAppliedState::Stale
    } else if generated == Some(desired) && observed == Some(desired) {
        AgentAppliedState::Consistent
    } else {
        AgentAppliedState::Unknown
    }
}

pub fn tun_applied_consistency(desired: bool, generated: Option<bool>, observed: Option<bool>) -> (state: AgentAppliedState)
    ensures
        state == spec_tun_applied_consistency(desired, generated, observed),
{
    let generated_differs = match generated {
        Some(enabled) => enabled != desired,
        None => false,
    };
    let observed_differs = match observed {
        Some(enabled) => enabled != desired,
        None => false,
    };
    if generated_differs || observed_differs {
        AgentAppliedState::Stale
    } else if generated.is_some() && observed.is_some() {
        AgentAppliedState::Consistent
    } else {
        AgentAppliedState::Unknown
    }
}

pub open spec fn spec_summarize_service(desired_enabled: bool, ipc_connected: bool, probe: ServiceStatusProbe) -> AgentServiceSnapshot {
    match probe {
        ServiceStatusProbe::Reported(status) => AgentServiceSnapshot {
            desired_enabled,
            state: status.state,
            ipc_connected,
            runtime_compatible: status.runtime_compatible,
        },
        _ => AgentServiceSnapshot {
            desired_enabled,
            state: AgentServiceState::Unknown,
            ipc_connected,
            runtime_compatible: None,
        },
    }
}

pub open spec fn service_probe_failures(probe: ServiceStatusProbe) -> Seq<AgentProbeFailure> {
    match probe {
        ServiceStatusProbe::Reported(_) => seq![],
        ServiceStatusProbe::Failed => seq![AgentProbeFailure { code: AgentProbeCode::ServiceStatusUnavailable }],
        ServiceStatusProbe::TimedOut => seq![AgentProbeFailure { code: AgentProbeCode::ServiceStatusTimeout }],
    }
}

pub fn summarize_service(
    desired_enabled: bool,
    ipc_connected: bool,
    probe: ServiceStatusProbe,
    failures: &mut Vec<AgentProbeFailure>,
) -> (service: AgentServiceSnapshot)
    ensures
        service == spec_summarize_service(desired_enabled, ipc_connected, probe),
        final(failures)@ == old(failures)@ + service_probe_failures(probe),
{
    match probe {
        ServiceStatusProbe::Reported(status) => {
            assert(final(failures)@ =~= old(failures)@ + service_probe_failures(probe));
            AgentServiceSnapshot {
                desired_enabled,
                state: status.state,
                ipc_connected,
                runtime_compatible: status.runtime_compatible,
            }
        },
        ServiceStatusProbe::Failed => {
            failures.push(AgentProbeFailure { code: AgentProbeCode::ServiceStatusUnavailable });
            AgentServiceSnapshot { desired_enabled, state: AgentServiceState::Unknown, ipc_connected, runtime_compatible: None }
        },
        ServiceStatusProbe::TimedOut => {
            failures.push(AgentProbeFailure { code: AgentProbeCode::ServiceStatusTimeout });
            AgentServiceSnapshot { desired_enabled, state: AgentServiceState::Unknown, ipc_connected, runtime_compatible: None }
        },
    }
}

/// The scope of a proxy host: loopback for `localhost` (in any ASCII case) or a
/// loopback IP literal, unknown for a blank host, otherwise non-loopback.
pub open spec fn spec_host_scope(host: Seq<char>) -> AgentHostScope {
    if ascii_lowercase(host) == "localhost"@ || (std_parsed_ip(host) matches Some(address)
        && is_loopback(address)) {
        AgentHostScope::Loopback
    } else if is_blank(host) {
        AgentHostScope::Unknown
    } else {
        AgentHostScope::NonLoopback
    }
}

pub fn host_scope(host: &str) -> (scope: AgentHostScope)
    ensures
        scope == spec_host_scope(host@),
{
    let chars = chars_of(host);
    let lower = to_ascii_lowercase(&chars);
    if chars_equal(&lower, "localhost") {
        return AgentHostScope::Loopback;
    }
    let loopback = match parse_ip_address(host) {
        Some(address) => address_is_loopback(&address),
        None => false,
    };
    if loopback {
        AgentHostScope::Loopback
    } else if chars_are_blank(&chars) {
        AgentHostScope::Unknown
    } else {
        AgentHostScope::NonLoopback
    }
}

/// The system proxy summary: what was observed, never the raw host or bypass list.
pub open spec fn spec_summarize_system_proxy(
    desired_enabled: bool,
    expected_mixed_port: u16,
    observed: Option<(bool, Seq<char>, u16)>,
) -> AgentSystemProxySnapshot {
    match observed {
        Some((enabled, host, port)) => {
            let scope = spec_host_scope(host);
            AgentSystemProxySnapshot {
                desired_enabled,
                observed_enabled: Some(enabled),
                observed_host_scope: scope,
                observed_port: Some(port),
                expected_mixed_port,
                matches_expected_endpoint: Some(scope == AgentHostScope::Loopback && port == expected_mixed_port),
            }
        },
        None => AgentSystemProxySnapshot {
            desired_enabled,
            observed_enabled: None,
            observed_host_scope: AgentHostScope::Unknown,
            observed_port: None,
            expected_mixed_port,
            matches_expected_endpoint: None,
        },
    }
}

/// The observation of a proxy configuration as plain values.
pub open spec fn proxy_observation(observed: Option<SystemProxyConfiguration>) -> Option<(bool, Seq<char>, u16)> {
    match observed {
        Some(proxy) => Some((proxy.enabled, proxy.host@, proxy.port)),
        None => None,
    }
}

pub fn summarize_system_proxy(
    desired_enabled: bool,
    expected_mixed_port: u16,
    observed: Option<SystemProxyConfiguration>,
    failures: &mut Vec<AgentProbeFailure>,
) -> (proxy: AgentSystemProxySnapshot)
    ensures
        proxy == spec_summarize_system_proxy(desired_enabled, expected_mixed_port, proxy_observation(observed)),
        final(failures)@ == old(failures)@ + (if observed is None {
            seq![AgentProbeFailure { code: AgentProbeCode::SystemProxyUnavailable }]
        } else {
            seq![]
        }),
{
    match observed {
        Some(proxy) => {
            let scope = host_scope(proxy.host.as_str());
            assert(final(failures)@ =~= old(failures)@);
            AgentSystemProxySnapshot {
                desired_enabled,
                observed_enabled: Some(proxy.enabled),
                observed_host_scope: scope,
                observed_port: Some(proxy.port),
                expected_mixed_port,
                matches_expected_endpoint: Some(scope == AgentHostScope::Loopback && proxy.port == expected_mixed_port),
            }
        },
        None => {
            failures.push(AgentProbeFailure { code: AgentProbeCode::SystemProxyUnavailable });
            AgentSystemProxySnapshot {
                desired_enabled,
                observed_enabled: None,
                observed_host_scope: AgentHostScope::Unknown,
                observed_port: None,
                expected_mixed_port,
                matches_expected_endpoint: None,
            }
        },
    }
}

pub open spec fn finding_if(condition: bool, code: AgentFindingCode, severity: AgentFindingSeverity) -> Seq<AgentFinding> {
    if condition {
        seq![AgentFinding { code, severity }]
    } else {
        seq![]
    }
}

/// The findings of a snapshot, in report order.
pub open spec fn spec_findings(
    core: AgentCoreSnapshot,
    service: AgentServiceSnapshot,
    proxy: AgentSystemProxySnapshot,
    tun: AgentTunSnapshot,
    profiles: AgentProfileSnapshot,
    telemetry: AgentTelemetrySnapshot,
    secret_is_weak: bool,
) -> Seq<AgentFinding> {
    finding_if(secret_is_weak, AgentFindingCode::WeakControllerSecret, AgentFindingSeverity::Warning)
        + finding_if(proxy.observed_enabled == Some(true) && core.state == AgentCoreState::Stopped,
            AgentFindingCode::SystemProxyWithoutRunningCore, AgentFindingSeverity::Critical)
        + finding_if(proxy.observed_enabled == Some(true) && proxy.matches_expected_endpoint == Some(false),
            AgentFindingCode::SystemProxyEndpointMismatch, AgentFindingSeverity::Warning)
        + finding_if(!core.runtime_config_present, AgentFindingCode::RuntimeConfigMissing, AgentFindingSeverity::Critical)
        + finding_if(profiles.active_count == 0 || !profiles.active_references_valid,
            AgentFindingCode::ActiveProfileMissing, AgentFindingSeverity::Warning)
        + finding_if(service.desired_enabled && (!service.ipc_connected || service.runtime_compatible == Some(false)),
            AgentFindingCode::ServiceModeInconsistent, AgentFindingSeverity::Warning)
        + finding_if(core.state == AgentCoreState::Running && telemetry.state == AgentConnectorState::Disconnected,
            AgentFindingCode::ClashConnectorDisconnected, AgentFindingSeverity::Warning)
        + finding_if(tun.generated_runtime_enabled is Some && tun.generated_runtime_enabled != Some(tun.desired_enabled),
            AgentFindingCode::TunRuntimeMismatch, AgentFindingSeverity::Critical)
        + finding_if(telemetry.recent_error_count > 0, AgentFindingCode::RecentCoreErrors, AgentFindingSeverity::Info)
}

pub fn push_finding(findings: &mut Vec<AgentFinding>, condition: bool, code: AgentFindingCode, severity: AgentFindingSeverity)
    ensures
        final(findings)@ == old(findings)@ + finding_if(condition, code, severity),
{
    if condition {
        findings.push(AgentFinding { code, severity });
    }
    assert(final(findings)@ =~= old(findings)@ + finding_if(condition, code, severity));
}

fn is_some_value(value: Option<bool>, expected: bool) -> (equal: bool)
    ensures
        equal == (value == Some(expected)),
{
    match value {
        Some(v) => v == expected,
        None => false,
    }
}

pub fn derive_findings(
    core: &AgentCoreSnapshot,
    service: &AgentServiceSnapshot,
    proxy: &AgentSystemProxySnapshot,
    tun: &AgentTunSnapshot,
    profiles: &AgentProfileSnapshot,
    telemetry: &AgentTelemetrySnapshot,
    secret_is_weak: bool,
) -> (findings: Vec<AgentFinding>)
    ensures
        findings@ == spec_findings(*core, *service, *proxy, *tun, *profiles, *telemetry, secret_is_weak),
{
    let mut findings: Vec<AgentFinding> = Vec::new();
    push_finding(&mut findings, secret_is_weak, AgentFindingCode::WeakControllerSecret, AgentFindingSeverity::Warning);
    push_finding(
        &mut findings,
        is_some_value(proxy.observed_enabled, true) && core.state == AgentCoreState::Stopped,
        AgentFindingCode::SystemProxyWithoutRunningCore,
        AgentFindingSeverity::Critical,
    );
    push_finding(
        &mut findings,
        is_some_value(proxy.observed_enabled, true) && is_some_value(proxy.matches_expected_endpoint, false),
        AgentFindingCode::SystemProxyEndpointMismatch,
        AgentFindingSeverity::Warning,
    );
    push_finding(&mut findings, !core.runtime_config_present, AgentFindingCode::RuntimeConfigMissing, AgentFindingSeverity::Critical);
    push_finding(
        &mut findings,
        profiles.active_count == 0 || !profiles.active_references_valid,
        AgentFindingCode::ActiveProfileMissing,
        AgentFindingSeverity::Warning,
    );
    push_finding(
        &mut findings,
        service.desired_enabled && (!service.ipc_connected || is_some_value(service.runtime_compatible, false)),
        AgentFindingCode::ServiceModeInconsistent,
        AgentFindingSeverity::Warning,
    );
    push_finding(
        &mut findings,
        core.state == AgentCoreState::Running && telemetry.state == AgentConnectorState::Disconnected,
        AgentFindingCode::ClashConnectorDisconnected,
        AgentFindingSeverity::Warning,
    );
    let tun_mismatch = match tun.generated_runtime_enabled {
        Some(generated) => generated != tun.desired_enabled,
        None => false,
    };
    push_finding(&mut findings, tun_mismatch, AgentFindingCode::TunRuntimeMismatch, AgentFindingSeverity::Critical);
    push_finding(
        &mut findings,
        telemetry.recent_error_count > 0,
        AgentFindingCode::RecentCoreErrors,
        AgentFindingSeverity::Info,
    );
    assert(findings@ =~= spec_findings(*core, *service, *proxy, *tun, *profiles, *telemetry, secret_is_weak));
    findings
}

/// The finding that a connectivity status is reported as, if any.
pub open spec fn spec_connectivity_finding(status: AgentHostConnectivityStatus) -> Option<AgentFinding> {
    match status {
        AgentHostConnectivityStatus::LinkDisconnected => Some(AgentFinding { code: AgentFindingCode::HostLinkDisconnected, severity: AgentFindingSeverity::Critical }),
        AgentHostConnectivityStatus::AddressUnavailable => Some(AgentFinding { code: AgentFindingCode::HostAddressUnavailable, severity: AgentFindingSeverity::Critical }),
        AgentHostConnectivityStatus::DefaultRouteUnavailable => Some(AgentFinding { code: AgentFindingCode::HostDefaultRouteUnavailable, severity: AgentFindingSeverity::Critical }),
        AgentHostConnectivityStatus::DnsUnavailable => Some(AgentFinding { code: AgentFindingCode::HostDnsUnavailable, severity: AgentFindingSeverity::Critical }),
        AgentHostConnectivityStatus::CaptivePortalSuspected => Some(AgentFinding { code: AgentFindingCode::HostCaptivePortalSuspected, severity: AgentFindingSeverity::Warning }),
        AgentHostConnectivityStatus::InternetUnreachable => Some(AgentFinding { code: AgentFindingCode::HostInternetUnreachable, severity: AgentFindingSeverity::Critical }),
        AgentHostConnectivityStatus::OnlineIpv4Only => Some(AgentFinding { code: AgentFindingCode::HostIpv4Only, severity: AgentFindingSeverity::Info }),
        AgentHostConnectivityStatus::OnlineIpv6Only => Some(AgentFinding { code: AgentFindingCode::HostIpv6Only, severity: AgentFindingSeverity::Info }),
        AgentHostConnectivityStatus::OnlineDualStack | AgentHostConnectivityStatus::Indeterminate => None,
    }
}

pub fn append_connectivity_finding(findings: &mut Vec<AgentFinding>, status: AgentHostConnectivityStatus)
    ensures
        final(findings)@ == old(findings)@ + (match spec_connectivity_finding(status) {
            Some(finding) => seq![finding],
            None => seq![],
        }),
{
    let finding = match status {
        AgentHostConnectivityStatus::LinkDisconnected => Some((AgentFindingCode::HostLinkDisconnected, AgentFindingSeverity::Critical)),
        AgentHostConnectivityStatus::AddressUnavailable => Some((AgentFindingCode::HostAddressUnavailable, AgentFindingSeverity::Critical)),
        AgentHostConnectivityStatus::DefaultRouteUnavailable => Some((AgentFindingCode::HostDefaultRouteUnavailable, AgentFindingSeverity::Critical)),
        AgentHostConnectivityStatus::DnsUnavailable => Some((AgentFindingCode::HostDnsUnavailable, AgentFindingSeverity::Critical)),
        AgentHostConnectivityStatus::CaptivePortalSuspected => Some((AgentFindingCode::HostCaptivePortalSuspected, AgentFindingSeverity::Warning)),
        AgentHostConnectivityStatus::InternetUnreachable => Some((AgentFindingCode::HostInternetUnreachable, AgentFindingSeverity::Critical)),
        AgentHostConnectivityStatus::OnlineIpv4Only => Some((AgentFindingCode::HostIpv4Only, AgentFindingSeverity::Info)),
        AgentHostConnectivityStatus::OnlineIpv6Only => Some((AgentFindingCode::HostIpv6Only, AgentFindingSeverity::Info)),
        AgentHostConnectivityStatus::OnlineDualStack | AgentHostConnectivityStatus::Indeterminate => None,
    };
    match finding {
        Some((code, severity)) => findings.push(AgentFinding { code, severity }),
        None => {},
    }
    assert(final(findings)@ =~= old(findings)@ + (match spec_connectivity_finding(status) {
        Some(finding) => seq![finding],
        None => seq![],
    }));
}

/// The readiness findings: a required permission, and an unverified system DNS.
pub open spec fn spec_readiness_findings(readiness: AgentPlatformReadinessSnapshot) -> Seq<AgentFinding> {
    finding_if(readiness.tun_permission == AgentTunPermissionReadiness::Required,
        AgentFindingCode::TunPermissionRequired, AgentFindingSeverity::Warning)
        + finding_if(readiness.system_dns_verification == AgentSystemDnsVerificationStatus::NotConfigured
            || readiness.system_dns_verification == AgentSystemDnsVerificationStatus::ResolutionFailed,
            AgentFindingCode::TunSystemDnsUnverified, AgentFindingSeverity::Warning)
}

pub fn append_platform_readiness_findings(findings: &mut Vec<AgentFinding>, readiness: &AgentPlatformReadinessSnapshot)
    ensures
        final(findings)@ == old(findings)@ + spec_readiness_findings(*readiness),
{
    push_finding(
        findings,
        readiness.tun_permission == AgentTunPermissionReadiness::Required,
        AgentFindingCode::TunPermissionRequired,
        AgentFindingSeverity::Warning,
    );
    push_finding(
        findings,
        readiness.system_dns_verification == AgentSystemDnsVerificationStatus::NotConfigured
            || readiness.system_dns_verification == AgentSystemDnsVerificationStatus::ResolutionFailed,
        AgentFindingCode::TunSystemDnsUnverified,
        AgentFindingSeverity::Warning,
    );
    assert(final(findings)@ =~= old(findings)@ + spec_readiness_findings(*readiness));
}

pub open spec fn has_severity(findings: Seq<AgentFinding>, severity: AgentFindingSeverity) -> bool {
    exists|i: int| 0 <= i < findings.len() && #[trigger] findings[i].severity == severity
}

/// Health: critical findings dominate, then probe failures, then warnings.
pub open spec fn spec_health(findings: Seq<AgentFinding>, failures: Seq<AgentProbeFailure>) -> AgentHealth {
    if has_severity(findings, AgentFindingSeverity::Critical) {
        AgentHealth::Critical
    } else if failures.len() > 0 {
        AgentHealth::Degraded
    } else if has_severity(findings, AgentFindingSeverity::Warning) {
        AgentHealth::Warning
    } else {
        AgentHealth::Healthy
    }
}

fn any_with_severity(findings: &[AgentFinding], severity: AgentFindingSeverity) -> (found: bool)
    ensures
        found == has_severity(findings@, severity),
{
    let mut i: usize = 0;
    while i < findings.len()
        invariant
            i <= findings.len(),
            forall|j: int| 0 <= j < i ==> (#[trigger] findings@[j]).severity != severity,
        decreases findings.len() - i,
    {
        if findings[i].severity == severity {
            return true;
        }
        i = i + 1;
    }
    false
}

pub fn derive_health(findings: &[AgentFinding], failures: &[AgentProbeFailure]) -> (health: AgentHealth)
    ensures
        health == spec_health(findings@, failures@),
{
    if any_with_severity(findings, AgentFindingSeverity::Critical) {
        AgentHealth::Critical
    } else if failures.len() > 0 {
        AgentHealth::Degraded
    } else if any_with_severity(findings, AgentFindingSeverity::Warning) {
        AgentHealth::Warning
    } else {
        AgentHealth::Healthy
    }
}

/// A system proxy left enabled while the core is stopped is always critical.
pub proof fn lemma_stale_proxy_is_critical(
    core: AgentCoreSnapshot,
    service: AgentServiceSnapshot,
    proxy: AgentSystemProxySnapshot,
    tun: AgentTunSnapshot,
    profiles: AgentProfileSnapshot,
    telemetry: AgentTelemetrySnapshot,
    secret_is_weak: bool,
    failures: Seq<AgentProbeFailure>,
)
    requires
        proxy.observed_enabled == Some(true),
        core.state == AgentCoreState::Stopped,
    ensures
        spec_health(spec_findings(core, service, proxy, tun, profiles, telemetry, secret_is_weak), failures)
            == AgentHealth::Critical,
{
    let f = spec_findings(core, service, proxy, tun, profiles, telemetry, secret_is_weak);
    let prefix = finding_if(secret_is_weak, AgentFindingCode::WeakControllerSecret, AgentFindingSeverity::Warning);
    assert(f[prefix.len() as int].severity == AgentFindingSeverity::Critical);
}

/// Health is healthy exactly when nothing critical or warning was found and every probe succeeded.
pub proof fn lemma_healthy_means_nothing_to_report(findings: Seq<AgentFinding>, failures: Seq<AgentProbeFailure>)
    ensures
        spec_health(findings, failures) == AgentHealth::Healthy <==> (!has_severity(findings, AgentFindingSeverity::Critical)
            && !has_severity(findings, AgentFindingSeverity::Warning) && failures.len() == 0),
{
}

/// A proxy summary never claims an expected endpoint it did not observe as loopback on the expected port.
pub proof fn lemma_proxy_summary_is_consistent(desired_enabled: bool, expected_mixed_port: u16, observed: Option<(bool, Seq<char>, u16)>)
    ensures
        ({
            let s = spec_summarize_system_proxy(desired_enabled, expected_mixed_port, observed);
            s.matches_expected_endpoint == Some(true) ==> s.observed_host_scope == AgentHostScope::Loopback
                && s.observed_port == Some(s.expected_mixed_port)
        }),
{
}

/// No finding of the sequence has the code.
pub open spec fn lacks_code(findings: Seq<AgentFinding>, code: AgentFindingCode) -> bool {
    forall|i: int| 0 <= i < findings.len() ==> (#[trigger] findings[i]).code != code
}

proof fn lemma_lacks_code_concat(a: Seq<AgentFinding>, b: Seq<AgentFinding>, code: AgentFindingCode)
    requires
        lacks_code(a, code),
        lacks_code(b, code),
    ensures
        lacks_code(a + b, code),
{
    assert forall|i: int| 0 <= i < (a + b).len() implies (#[trigger] (a + b)[i]).code != code by {
        if i < a.len() {
            assert((a + b)[i] == a[i]);
        } else {
            assert((a + b)[i] == b[i - a.len()]);
        }
    }
}

proof fn lemma_only_the_middle_has_code(
    before: Seq<AgentFinding>,
    middle: Seq<AgentFinding>,
    after: Seq<AgentFinding>,
    code: AgentFindingCode,
)
    requires
        lacks_code(before, code),
        lacks_code(after, code),
    ensures
        (exists|i: int| 0 <= i < (before + middle + after).len() && (#[trigger] (before + middle + after)[i]).code == code)
            <==> (exists|j: int| 0 <= j < middle.len() && (#[trigger] middle[j]).code == code),
        forall|i: int| 0 <= i < (before + middle + after).len() && (#[trigger] (before + middle + after)[i]).code == code
            ==> before.len() <= i < before.len() + middle.len() && (before + middle + after)[i] == middle[i - before.len()],
{
    let f = before + middle + after;
    assert forall|i: int| 0 <= i < f.len() && (#[trigger] f[i]).code == code implies before.len() <= i
        < before.len() + middle.len() && f[i] == middle[i - before.len()] by {
        if i < before.len() {
            assert(f[i] == before[i]);
        } else if i < before.len() + middle.len() {
            assert(f[i] == middle[i - before.len()]);
        } else {
            assert(f[i] == after[i - before.len() - middle.len()]);
        }
    }
    if exists|j: int| 0 <= j < middle.len() && (#[trigger] middle[j]).code == code {
        let j = choose|j: int| 0 <= j < middle.len() && (#[trigger] middle[j]).code == code;
        assert(f[before.len() + j] == middle[j]);
    }
}

/// The findings reported before the TUN mismatch, in report order.
pub open spec fn findings_before_tun(
    core: AgentCoreSnapshot,
    service: AgentServiceSnapshot,
    proxy: AgentSystemProxySnapshot,
    profiles: AgentProfileSnapshot,
    telemetry: AgentTelemetrySnapshot,
    secret_is_weak: bool,
) -> Seq<AgentFinding> {
    finding_if(secret_is_weak, AgentFindingCode::WeakControllerSecret, AgentFindingSeverity::Warning)
        + finding_if(proxy.observed_enabled == Some(true) && core.state == AgentCoreState::Stopped,
            AgentFindingCode::SystemProxyWithoutRunningCore, AgentFindingSeverity::Critical)
        + finding_if(proxy.observed_enabled == Some(true) && proxy.matches_expected_endpoint == Some(false),
            AgentFindingCode::SystemProxyEndpointMismatch, AgentFindingSeverity::Warning)
        + finding_if(!core.runtime_config_present, AgentFindingCode::RuntimeConfigMissing, AgentFindingSeverity::Critical)
        + finding_if(profiles.active_count == 0 || !profiles.active_references_valid,
            AgentFindingCode::ActiveProfileMissing, AgentFindingSeverity::Warning)
        + finding_if(service.desired_enabled && (!service.ipc_connected || service.runtime_compatible == Some(false)),
            AgentFindingCode::ServiceModeInconsistent, AgentFindingSeverity::Warning)
        + finding_if(core.state == AgentCoreState::Running && telemetry.state == AgentConnectorState::Disconnected,
            AgentFindingCode::ClashConnectorDisconnected, AgentFindingSeverity::Warning)
}

proof fn lemma_findings_before_tun_lack_mismatch(
    core: AgentCoreSnapshot,
    service: AgentServiceSnapshot,
    proxy: AgentSystemProxySnapshot,
    profiles: AgentProfileSnapshot,
    telemetry: AgentTelemetrySnapshot,
    secret_is_weak: bool,
)
    ensures
        lacks_code(
            findings_before_tun(core, service, proxy, profiles, telemetry, secret_is_weak),
            AgentFindingCode::TunRuntimeMismatch,
        ),
{
    let c = AgentFindingCode::TunRuntimeMismatch;
    let p1 = finding_if(secret_is_weak, AgentFindingCode::WeakControllerSecret, AgentFindingSeverity::Warning);
    let p2 = finding_if(proxy.observed_enabled == Some(true) && core.state == AgentCoreState::Stopped,
        AgentFindingCode::SystemProxyWithoutRunningCore, AgentFindingSeverity::Critical);
    let p3 = finding_if(proxy.observed_enabled == Some(true) && proxy.matches_expected_endpoint == Some(false),
        AgentFindingCode::SystemProxyEndpointMismatch, AgentFindingSeverity::Warning);
    let p4 = finding_if(!core.runtime_config_present, AgentFindingCode::RuntimeConfigMissing, AgentFindingSeverity::Critical);
    let p5 = finding_if(profiles.active_count == 0 || !profiles.active_references_valid,
        AgentFindingCode::ActiveProfileMissing, AgentFindingSeverity::Warning);
    let p6 = finding_if(service.desired_enabled && (!service.ipc_connected || service.runtime_compatible == Some(false)),
        AgentFindingCode::ServiceModeInconsistent, AgentFindingSeverity::Warning);
    let p7 = finding_if(core.state == AgentCoreState::Running && telemetry.state == AgentConnectorState::Disconnected,
        AgentFindingCode::ClashConnectorDisconnected, AgentFindingSeverity::Warning);
    lemma_lacks_code_concat(p1, p2, c);
    lemma_lacks_code_concat(p1 + p2, p3, c);
    lemma_lacks_code_concat(p1 + p2 + p3, p4, c);
    lemma_lacks_code_concat(p1 + p2 + p3 + p4, p5, c);
    lemma_lacks_code_concat(p1 + p2 + p3 + p4 + p5, p6, c);
    lemma_lacks_code_concat(p1 + p2 + p3 + p4 + p5 + p6, p7, c);
}

/// A TUN runtime mismatch is reported, as critical, exactly when the generated runtime TUN state
/// is known and differs from the desired one: a generated state equal to the desired one, or an
/// unknown one, never yields it.
pub proof fn lemma_tun_mismatch_reported_exactly_when_generated_differs(
    core: AgentCoreSnapshot,
    service: AgentServiceSnapshot,
    proxy: AgentSystemProxySnapshot,
    tun: AgentTunSnapshot,
    profiles: AgentProfileSnapshot,
    telemetry: AgentTelemetrySnapshot,
    secret_is_weak: bool,
)
    ensures
        ({
            let f = spec_findings(core, service, proxy, tun, profiles, telemetry, secret_is_weak);
            &&& (exists|i: int|
                0 <= i < f.len() && (#[trigger] f[i]).code == AgentFindingCode::TunRuntimeMismatch)
                <==> (match tun.generated_runtime_enabled {
                Some(generated) => generated != tun.desired_enabled,
                None => false,
            })
            &&& forall|i: int|
                0 <= i < f.len() && (#[trigger] f[i]).code == AgentFindingCode::TunRuntimeMismatch
                    ==> f[i].severity == AgentFindingSeverity::Critical
        }),
{
    let c = AgentFindingCode::TunRuntimeMismatch;
    let before = findings_before_tun(core, service, proxy, profiles, telemetry, secret_is_weak);
    let t = finding_if(tun.generated_runtime_enabled is Some && tun.generated_runtime_enabled != Some(tun.desired_enabled),
        AgentFindingCode::TunRuntimeMismatch, AgentFindingSeverity::Critical);
    let r = finding_if(telemetry.recent_error_count > 0, AgentFindingCode::RecentCoreErrors, AgentFindingSeverity::Info);
    lemma_findings_before_tun_lack_mismatch(core, service, proxy, profiles, telemetry, secret_is_weak);
    assert(spec_findings(core, service, proxy, tun, profiles, telemetry, secret_is_weak) == before + t + r);
    lemma_only_the_middle_has_code(before, t, r, c);
    let mismatch = match tun.generated_runtime_enabled {
        Some(generated) => generated != tun.desired_enabled,
        None => false,
    };
    assert(t.len() > 0 <==> mismatch);
    if mismatch {
        assert(t[0].code == c);
    }
    assert forall|j: int| 0 <= j < t.len() implies t[j] == (AgentFinding {
        code: c,
        severity: AgentFindingSeverity::Critical,
    }) by {}
}

} // verus!
