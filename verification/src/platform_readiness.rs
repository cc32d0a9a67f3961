//! Whether the host is ready for the TUN state the user asked for.
use vstd::prelude::*;

use crate::model::{
    AgentAppliedState, AgentCoreSnapshot, AgentHostConnectivitySnapshot,
    AgentPlatformReadinessReason, AgentPlatformReadinessSnapshot, AgentProcessPrivilegeStatus,
    AgentRunType, AgentServiceSnapshot, AgentServiceState, AgentSystemDnsVerificationStatus,
    AgentTunPermissionReadiness, AgentTunSnapshot, AgentTunVerificationStatus,
};

verus! {

/// Whether the service mode could host the core: known only for an installed service
/// whose runtime compatibility is known.
pub open spec fn spec_service_mode_available(service: AgentServiceSnapshot) -> Option<bool> {
    match service.state {
        AgentServiceState::NotInstalled => Some(false),
        AgentServiceState::Stopped | AgentServiceState::Running => service.runtime_compatible,
        AgentServiceState::Unknown => None,
    }
}

pub open spec fn spec_tun_verification(tun: AgentTunSnapshot) -> AgentTunVerificationStatus {
    if !tun.desired_enabled {
        AgentTunVerificationStatus::NotRequested
    } else if tun.applied_consistency == AgentAppliedState::Consistent && tun.generated_runtime_enabled
        == Some(true) && tun.observed_enabled == Some(true) {
        AgentTunVerificationStatus::Verified
    } else if tun.generated_runtime_enabled is None || tun.observed_enabled is None
        || tun.applied_consistency == AgentAppliedState::Unknown {
        AgentTunVerificationStatus::Unavailable
    } else {
        AgentTunVerificationStatus::Inconsistent
    }
}

/// The core runs in an active, compatible service.
pub open spec fn service_active(core: AgentCoreSnapshot, service: AgentServiceSnapshot) -> bool {
    &&& core.run_type == AgentRunType::Service
    &&& service.state == AgentServiceState::Running
    &&& service.ipc_connected
    &&& service.runtime_compatible == Some(true)
}

pub open spec fn spec_tun_permission(
    privilege: AgentProcessPrivilegeStatus,
    core: AgentCoreSnapshot,
    service: AgentServiceSnapshot,
    tun: AgentTunSnapshot,
    verification: AgentTunVerificationStatus,
    service_available: Option<bool>,
) -> AgentTunPermissionReadiness {
    if !tun.desired_enabled {
        AgentTunPermissionReadiness::NotRequired
    } else if verification == AgentTunVerificationStatus::Verified || core.run_type
        == AgentRunType::Elevated || privilege == AgentProcessPrivilegeStatus::Elevated
        || service_active(core, service) {
        AgentTunPermissionReadiness::Satisfied
    } else if service_available == Some(true) {
        AgentTunPermissionReadiness::ServiceAlternativeAvailable
    } else if privilege == AgentProcessPrivilegeStatus::Standard && service_available == Some(false) {
        AgentTunPermissionReadiness::Required
    } else {
        AgentTunPermissionReadiness::Indeterminate
    }
}

pub open spec fn spec_system_dns_verification(tun: AgentTunSnapshot, connectivity: AgentHostConnectivitySnapshot) -> AgentSystemDnsVerificationStatus {
    if !tun.desired_enabled {
        AgentSystemDnsVerificationStatus::NotRequired
    } else {
        match (connectivity.dns_configured, connectivity.dns_resolves) {
            (Some(true), Some(true)) => AgentSystemDnsVerificationStatus::Verified,
            (Some(false), _) => AgentSystemDnsVerificationStatus::NotConfigured,
            (Some(true), Some(false)) => AgentSystemDnsVerificationStatus::ResolutionFailed,
            _ => AgentSystemDnsVerificationStatus::Unavailable,
        }
    }
}

pub open spec fn readiness_reason_if(condition: bool, reason: AgentPlatformReadinessReason) -> Seq<AgentPlatformReadinessReason> {
    if condition {
        seq![reason]
    } else {
        seq![]
    }
}

pub open spec fn spec_readiness_reasons(
    privilege: AgentProcessPrivilegeStatus,
    core: AgentCoreSnapshot,
    tun: AgentTunSnapshot,
    permission: AgentTunPermissionReadiness,
    verification: AgentTunVerificationStatus,
    dns: AgentSystemDnsVerificationStatus,
) -> Seq<AgentPlatformReadinessReason> {
    if !tun.desired_enabled {
        seq![]
    } else {
        readiness_reason_if(privilege == AgentProcessPrivilegeStatus::Elevated, AgentPlatformReadinessReason::ElevatedProcess)
            + readiness_reason_if(privilege == AgentProcessPrivilegeStatus::Unknown, AgentPlatformReadinessReason::PrivilegeProbeUnavailable)
            + readiness_reason_if(core.run_type == AgentRunType::Service, AgentPlatformReadinessReason::ServiceModeActive)
            + readiness_reason_if(permission == AgentTunPermissionReadiness::ServiceAlternativeAvailable, AgentPlatformReadinessReason::ServiceModeAvailable)
            + readiness_reason_if(permission == AgentTunPermissionReadiness::Required, AgentPlatformReadinessReason::PermissionRequired)
            + readiness_reason_if(verification == AgentTunVerificationStatus::Unavailable, AgentPlatformReadinessReason::TunStateUnavailable)
            + readiness_reason_if(verification == AgentTunVerificationStatus::Inconsistent, AgentPlatformReadinessReason::TunStateInconsistent)
            + readiness_reason_if(dns == AgentSystemDnsVerificationStatus::NotConfigured, AgentPlatformReadinessReason::SystemDnsNotConfigured)
            + readiness_reason_if(dns == AgentSystemDnsVerificationStatus::ResolutionFailed, AgentPlatformReadinessReason::SystemDnsResolutionFailed)
            + readiness_reason_if(dns == AgentSystemDnsVerificationStatus::Unavailable, AgentPlatformReadinessReason::SystemDnsUnavailable)
    }
}

/// The readiness snapshot classified from the observed state.
pub open spec fn spec_classified(
    privilege: AgentProcessPrivilegeStatus,
    core: AgentCoreSnapshot,
    service: AgentServiceSnapshot,
    tun: AgentTunSnapshot,
    connectivity: AgentHostConnectivitySnapshot,
    r: AgentPlatformReadinessSnapshot,
) -> bool {
    let available = spec_service_mode_available(service);
    let verification = spec_tun_verification(tun);
    let permission = spec_tun_permission(privilege, core, service, tun, verification, available);
    let dns = spec_system_dns_verification(tun, connectivity);
    &&& r.process_privilege == privilege
    &&& r.service_mode_available == available
    &&& r.tun_verification == verification
    &&& r.tun_permission == permission
    &&& r.system_dns_verification == dns
    &&& r.reasons@ == spec_readiness_reasons(privilege, core, tun, permission, verification, dns)
}

pub fn service_mode_available(service: &AgentServiceSnapshot) -> (available: Option<bool>)
    ensures
        available == spec_service_mode_available(*service),
{
    match service.state {
        AgentServiceState::NotInstalled => Some(false),
        AgentServiceState::Stopped | AgentServiceState::Running => service.runtime_compatible,
        AgentServiceState::Unknown => None,
    }
}

fn is_some_true(value: Option<bool>) -> (result: bool)
    ensures
        result == (value == Some(true)),
{
    match value {
        Some(v) => v,
        None => false,
    }
}

fn is_some_false(value: Option<bool>) -> (result: bool)
    ensures
        result == (value == Some(false)),
{
    match value {
        Some(v) => !v,
        None => false,
    }
}

pub fn tun_verification(tun: &AgentTunSnapshot) -> (status: AgentTunVerificationStatus)
    ensures
        status == spec_tun_verification(*tun),
{
    if !tun.desired_enabled {
        return AgentTunVerificationStatus::NotRequested;
    }
    if tun.applied_consistency == AgentAppliedState::Consistent && is_some_true(tun.generated_runtime_enabled)
        && is_some_true(tun.observed_enabled) {
        return AgentTunVerificationStatus::Verified;
    }
    if tun.generated_runtime_enabled.is_none() || tun.observed_enabled.is_none()
        || tun.applied_consistency == AgentAppliedState::Unknown {
        AgentTunVerificationStatus::Unavailable
    } else {
        AgentTunVerificationStatus::Inconsistent
    }
}

pub fn tun_permission(
    process_privilege: AgentProcessPrivilegeStatus,
    core: &AgentCoreSnapshot,
    service: &AgentServiceSnapshot,
    tun: &AgentTunSnapshot,
    verification: AgentTunVerificationStatus,
    service_available: Option<bool>,
) -> (permission: AgentTunPermissionReadiness)
    ensures
        permission == spec_tun_permission(process_privilege, *core, *service, *tun, verification, service_available),
{
    if !tun.desired_enabled {
        return AgentTunPermissionReadiness::NotRequired;
    }
    let active = core.run_type == AgentRunType::Service && service.state == AgentServiceState::Running
        && service.ipc_connected && is_some_true(service.runtime_compatible);
    if verification == AgentTunVerificationStatus::Verified || core.run_type == AgentRunType::Elevated
        || process_privilege == AgentProcessPrivilegeStatus::Elevated || active {
        return AgentTunPermissionReadiness::Satisfied;
    }
    if is_some_true(service_available) {
        return AgentTunPermissionReadiness::ServiceAlternativeAvailable;
    }
    if process_privilege == AgentProcessPrivilegeStatus::Standard && is_some_false(service_available) {
        AgentTunPermissionReadiness::Required
    } else {
        AgentTunPermissionReadiness::Indeterminate
    }
}

pub fn system_dns_verification(tun: &AgentTunSnapshot, connectivity: &AgentHostConnectivitySnapshot) -> (status: AgentSystemDnsVerificationStatus)
    ensures
        status == spec_system_dns_verification(*tun, *connectivity),
{
    if !tun.desired_enabled {
        return AgentSystemDnsVerificationStatus::NotRequired;
    }
    match (connectivity.dns_configured, connectivity.dns_resolves) {
        (Some(true), Some(true)) => AgentSystemDnsVerificationStatus::Verified,
        (Some(false), _) => AgentSystemDnsVerificationStatus::NotConfigured,
        (Some(true), Some(false)) => AgentSystemDnsVerificationStatus::ResolutionFailed,
        _ => AgentSystemDnsVerificationStatus::Unavailable,
    }
}

fn push_readiness_reason(reasons: &mut Vec<AgentPlatformReadinessReason>, condition: bool, reason: AgentPlatformReadinessReason)
    ensures
        final(reasons)@ == old(reasons)@ + readiness_reason_if(condition, reason),
{
    if condition {
        reasons.push(reason);
    }
    assert(final(reasons)@ =~= old(reasons)@ + readiness_reason_if(condition, reason));
}

pub fn readiness_reasons(
    process_privilege: AgentProcessPrivilegeStatus,
    core: &AgentCoreSnapshot,
    tun: &AgentTunSnapshot,
    permission: AgentTunPermissionReadiness,
    verification: AgentTunVerificationStatus,
    dns: AgentSystemDnsVerificationStatus,
) -> (reasons: Vec<AgentPlatformReadinessReason>)
    ensures
        reasons@ == spec_readiness_reasons(process_privilege, *core, *tun, permission, verification, dns),
{
    let mut reasons: Vec<AgentPlatformReadinessReason> = Vec::new();
    if !tun.desired_enabled {
        assert(reasons@ =~= seq![]);
        return reasons;
    }
    push_readiness_reason(
        &mut reasons,
        process_privilege == AgentProcessPrivilegeStatus::Elevated,
        AgentPlatformReadinessReason::ElevatedProcess,
    );
    push_readiness_reason(
        &mut reasons,
        process_privilege == AgentProcessPrivilegeStatus::Unknown,
        AgentPlatformReadinessReason::PrivilegeProbeUnavailable,
    );
    push_readiness_reason(&mut reasons, core.run_type == AgentRunType::Service, AgentPlatformReadinessReason::ServiceModeActive);
    push_readiness_reason(
        &mut reasons,
        permission == AgentTunPermissionReadiness::ServiceAlternativeAvailable,
        AgentPlatformReadinessReason::ServiceModeAvailable,
    );
    push_readiness_reason(
        &mut reasons,
        permission == AgentTunPermissionReadiness::Required,
        AgentPlatformReadinessReason::PermissionRequired,
    );
    push_readiness_reason(
        &mut reasons,
        verification == AgentTunVerificationStatus::Unavailable,
        AgentPlatformReadinessReason::TunStateUnavailable,
    );
    push_readiness_reason(
        &mut reasons,
        verification == AgentTunVerificationStatus::Inconsistent,
        AgentPlatformReadinessReason::TunStateInconsistent,
    );
    push_readiness_reason(
        &mut reasons,
        dns == AgentSystemDnsVerificationStatus::NotConfigured,
        AgentPlatformReadinessReason::SystemDnsNotConfigured,
    );
    push_readiness_reason(
        &mut reasons,
        dns == AgentSystemDnsVerificationStatus::ResolutionFailed,
        AgentPlatformReadinessReason::SystemDnsResolutionFailed,
    );
    push_readiness_reason(
        &mut reasons,
        dns == AgentSystemDnsVerificationStatus::Unavailable,
        AgentPlatformReadinessReason::SystemDnsUnavailable,
    );
    assert(reasons@ =~= spec_readiness_reasons(process_privilege, *core, *tun, permission, verification, dns));
    reasons
}

pub fn classify_platform_readiness(
    process_privilege: AgentProcessPrivilegeStatus,
    core: &AgentCoreSnapshot,
    service: &AgentServiceSnapshot,
    tun: &AgentTunSnapshot,
    connectivity: &AgentHostConnectivitySnapshot,
) -> (readiness: AgentPlatformReadinessSnapshot)
    ensures
        spec_classified(process_privilege, *core, *service, *tun, *connectivity, readiness),
{
    let available = service_mode_available(service);
    let verification = tun_verification(tun);
    let permission = tun_permission(process_privilege, core, service, tun, verification, available);
    let dns = system_dns_verification(tun, connectivity);
    let reasons = readiness_reasons(process_privilege, core, tun, permission, verification, dns);
    AgentPlatformReadinessSnapshot {
        process_privilege,
        service_mode_available: available,
        tun_permission: permission,
        tun_verification: verification,
        system_dns_verification: dns,
        reasons,
    }
}

/// When TUN is not requested, readiness never degrades: nothing is required or
/// unverified and no reason is reported, whatever the privilege or DNS observation.
pub proof fn lemma_tun_not_requested_is_always_ready(
    privilege: AgentProcessPrivilegeStatus,
    core: AgentCoreSnapshot,
    service: AgentServiceSnapshot,
    tun: AgentTunSnapshot,
    connectivity: AgentHostConnectivitySnapshot,
)
    requires
        !tun.desired_enabled,
    ensures
        spec_tun_verification(tun) == AgentTunVerificationStatus::NotRequested,
        spec_tun_permission(privilege, core, service, tun, spec_tun_verification(tun), spec_service_mode_available(service))
            == AgentTunPermissionReadiness::NotRequired,
        spec_system_dns_verification(tun, connectivity) == AgentSystemDnsVerificationStatus::NotRequired,
        spec_readiness_reasons(
            privilege,
            core,
            tun,
            AgentTunPermissionReadiness::NotRequired,
            AgentTunVerificationStatus::NotRequested,
            AgentSystemDnsVerificationStatus::NotRequired,
        ).len() == 0,
{
}

/// A verified running TUN proves that the permission is satisfied.
pub proof fn lemma_verified_tun_satisfies_permission(
    privilege: AgentProcessPrivilegeStatus,
    core: AgentCoreSnapshot,
    service: AgentServiceSnapshot,
    tun: AgentTunSnapshot,
)
    requires
        spec_tun_verification(tun) == AgentTunVerificationStatus::Verified,
    ensures
        spec_tun_permission(privilege, core, service, tun, spec_tun_verification(tun), spec_service_mode_available(service))
            == AgentTunPermissionReadiness::Satisfied,
{
}

/// The process privilege once probed: a known status is kept for the life of the process; an
/// unknown one is never kept, so that a later probe can still find the status.
pub struct PrivilegeCache {
    pub cached: Option<AgentProcessPrivilegeStatus>,
}

impl PrivilegeCache {
    pub fn new() -> (cache: PrivilegeCache)
        ensures
            cache.cached is None,
    {
        PrivilegeCache { cached: None }
    }

    /// The cached status, if one is known.
    pub fn cached_status(&self) -> (status: Option<AgentProcessPrivilegeStatus>)
        ensures
            status == self.cached,
    {
        self.cached
    }

    /// Keeps a probed status unless it is unknown.
    pub fn store_status(&mut self, status: AgentProcessPrivilegeStatus)
        ensures
            final(self).cached == (if status == AgentProcessPrivilegeStatus::Unknown {
                old(self).cached
            } else {
                Some(status)
            }),
    {
        if status == AgentProcessPrivilegeStatus::Unknown {
            return;
        }
        self.cached = Some(status);
    }
}

/// An unknown status never reaches the cache: whatever is stored, the cache holds only known
/// statuses if it did before.
pub proof fn lemma_privilege_cache_holds_only_known_statuses(
    cached: Option<AgentProcessPrivilegeStatus>,
    status: AgentProcessPrivilegeStatus,
)
    requires
        cached != Some(AgentProcessPrivilegeStatus::Unknown),
    ensures
        (if status == AgentProcessPrivilegeStatus::Unknown {
            cached
        } else {
            Some(status)
        }) != Some(AgentProcessPrivilegeStatus::Unknown),
{
}

/// The TUN verification, stated case by case: nothing is verified when TUN is not wanted; a
/// consistent state that is generated and observed on is verified; a state with a missing
/// generated or observed value, or an unknown consistency, cannot be verified; every other
/// desired state, with both values known, is inconsistent. A classified readiness carries that
/// verification, and reports an inconsistent TUN state among its reasons.
pub proof fn lemma_tun_verification_by_case(
    privilege: AgentProcessPrivilegeStatus,
    core: AgentCoreSnapshot,
    service: AgentServiceSnapshot,
    tun: AgentTunSnapshot,
    connectivity: AgentHostConnectivitySnapshot,
    r: AgentPlatformReadinessSnapshot,
)
    ensures
        !tun.desired_enabled ==> spec_tun_verification(tun) == AgentTunVerificationStatus::NotRequested,
        tun.desired_enabled && tun.applied_consistency == AgentAppliedState::Consistent
            && tun.generated_runtime_enabled == Some(true) && tun.observed_enabled == Some(true)
            ==> spec_tun_verification(tun) == AgentTunVerificationStatus::Verified,
        tun.desired_enabled && (tun.generated_runtime_enabled is None || tun.observed_enabled is None
            || tun.applied_consistency == AgentAppliedState::Unknown)
            ==> spec_tun_verification(tun) == AgentTunVerificationStatus::Unavailable,
        tun.desired_enabled && tun.generated_runtime_enabled is Some && tun.observed_enabled is Some
            && tun.applied_consistency != AgentAppliedState::Unknown && !(tun.applied_consistency
            == AgentAppliedState::Consistent && tun.generated_runtime_enabled == Some(true)
            && tun.observed_enabled == Some(true))
            ==> spec_tun_verification(tun) == AgentTunVerificationStatus::Inconsistent,
        spec_classified(privilege, core, service, tun, connectivity, r) ==> r.tun_verification
            == spec_tun_verification(tun),
        spec_classified(privilege, core, service, tun, connectivity, r) && spec_tun_verification(tun)
            == AgentTunVerificationStatus::Inconsistent ==> r.reasons@.contains(
            AgentPlatformReadinessReason::TunStateInconsistent,
        ),
{
    let available = spec_service_mode_available(service);
    let verification = spec_tun_verification(tun);
    let permission = spec_tun_permission(privilege, core, service, tun, verification, available);
    let dns = spec_system_dns_verification(tun, connectivity);
    if verification == AgentTunVerificationStatus::Inconsistent {
        let a = readiness_reason_if(privilege == AgentProcessPrivilegeStatus::Elevated, AgentPlatformReadinessReason::ElevatedProcess)
            + readiness_reason_if(privilege == AgentProcessPrivilegeStatus::Unknown, AgentPlatformReadinessReason::PrivilegeProbeUnavailable)
            + readiness_reason_if(core.run_type == AgentRunType::Service, AgentPlatformReadinessReason::ServiceModeActive)
            + readiness_reason_if(permission == AgentTunPermissionReadiness::ServiceAlternativeAvailable, AgentPlatformReadinessReason::ServiceModeAvailable)
            + readiness_reason_if(permission == AgentTunPermissionReadiness::Required, AgentPlatformReadinessReason::PermissionRequired)
            + readiness_reason_if(verification == AgentTunVerificationStatus::Unavailable, AgentPlatformReadinessReason::TunStateUnavailable);
        let b = readiness_reason_if(verification == AgentTunVerificationStatus::Inconsistent, AgentPlatformReadinessReason::TunStateInconsistent);
        let c = readiness_reason_if(dns == AgentSystemDnsVerificationStatus::NotConfigured, AgentPlatformReadinessReason::SystemDnsNotConfigured)
            + readiness_reason_if(dns == AgentSystemDnsVerificationStatus::ResolutionFailed, AgentPlatformReadinessReason::SystemDnsResolutionFailed)
            + readiness_reason_if(dns == AgentSystemDnsVerificationStatus::Unavailable, AgentPlatformReadinessReason::SystemDnsUnavailable);
        let f = spec_readiness_reasons(privilege, core, tun, permission, verification, dns);
        assert(f =~= a + b + c);
        assert(f[a.len() as int] == AgentPlatformReadinessReason::TunStateInconsistent);
    }
}

} // verus!
