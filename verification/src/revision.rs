//! The revision of a network snapshot: a digest of the observed values that a proposal is
//! planned against, so that a change of any of them invalidates the proposal.
use vstd::prelude::*;

use crate::corrupt_history::{decimal_digits, decimal_string};
use crate::digest::{hex_encode, lower_hex, sha256, sha256_of};
use crate::text::append_chars;
use crate::model::{
    AgentCoreSnapshot, AgentCoreState, AgentHostConnectivitySnapshot, AgentHostConnectivityStatus,
    AgentNetworkInterfaceKind, AgentPlatformReadinessSnapshot, AgentProcessPrivilegeStatus,
    AgentRoutingMode, AgentRunType, AgentServiceSnapshot, AgentServiceState,
    AgentSystemDnsVerificationStatus, AgentSystemProxySnapshot, AgentTunPermissionReadiness,
    AgentTunSnapshot, AgentTunVerificationStatus, NETWORK_SNAPSHOT_SCHEMA_VERSION,
};

verus! {

/// The observed values that a snapshot revision binds.
#[derive(Debug, Clone, Copy, PartialEq, Eq, Structural)]
pub struct RevisionInputs {
    pub core_state: AgentCoreState,
    pub run_type: AgentRunType,
    pub state_changed_at: i64,
    pub routing_mode: Option<AgentRoutingMode>,
    pub observed_routing_mode: Option<AgentRoutingMode>,
    pub service_desired_enabled: bool,
    pub service_state: AgentServiceState,
    pub proxy_observed_enabled: Option<bool>,
    pub proxy_observed_port: Option<u16>,
    pub tun_desired_enabled: bool,
    pub tun_generated_runtime_enabled: Option<bool>,
    pub connectivity_status: AgentHostConnectivityStatus,
    pub active_interface_kind: AgentNetworkInterfaceKind,
    pub link_up: Option<bool>,
    pub ipv4_usable_ip: bool,
    pub ipv6_usable_ip: bool,
    pub dns_resolves: Option<bool>,
    pub captive_portal_suspected: Option<bool>,
    pub process_privilege: AgentProcessPrivilegeStatus,
    pub tun_permission: AgentTunPermissionReadiness,
    pub tun_verification: AgentTunVerificationStatus,
    pub system_dns_verification: AgentSystemDnsVerificationStatus,
}

pub open spec fn revision_inputs_of(
    core: AgentCoreSnapshot,
    service: AgentServiceSnapshot,
    proxy: AgentSystemProxySnapshot,
    tun: AgentTunSnapshot,
    connectivity: AgentHostConnectivitySnapshot,
    readiness: AgentPlatformReadinessSnapshot,
) -> RevisionInputs {
    RevisionInputs {
        core_state: core.state,
        run_type: core.run_type,
        state_changed_at: core.state_changed_at,
        routing_mode: core.routing_mode,
        observed_routing_mode: core.observed_routing_mode,
        service_desired_enabled: service.desired_enabled,
        service_state: service.state,
        proxy_observed_enabled: proxy.observed_enabled,
        proxy_observed_port: proxy.observed_port,
        tun_desired_enabled: tun.desired_enabled,
        tun_generated_runtime_enabled: tun.generated_runtime_enabled,
        connectivity_status: connectivity.status,
        active_interface_kind: connectivity.active_interface_kind,
        link_up: connectivity.link_up,
        ipv4_usable_ip: connectivity.ipv4.usable_ip,
        ipv6_usable_ip: connectivity.ipv6.usable_ip,
        dns_resolves: connectivity.dns_resolves,
        captive_portal_suspected: connectivity.captive_portal_suspected,
        process_privilege: readiness.process_privilege,
        tun_permission: readiness.tun_permission,
        tun_verification: readiness.tun_verification,
        system_dns_verification: readiness.system_dns_verification,
    }
}

/// How the revision material writes a `bool`.
pub open spec fn bool_text(b: bool) -> Seq<char> {
    if b {
        "true"@
    } else {
        "false"@
    }
}

/// How the revision material writes a signed integer: its decimal digits, after a minus sign
/// when it is negative.
pub open spec fn signed_text(n: int) -> Seq<char> {
    if n < 0 {
        "-"@ + decimal_digits((-n) as nat)
    } else {
        decimal_digits(n as nat)
    }
}

/// How the revision material writes an optional value, given the text of the value.
pub open spec fn optional_text(value: Option<Seq<char>>) -> Seq<char> {
    match value {
        Some(text) => "Some("@ + text + ")"@,
        None => "None"@,
    }
}

/// The name of a `AgentCoreState` in the revision material.
pub open spec fn core_state_word(value: AgentCoreState) -> Seq<char> {
    match value {
        AgentCoreState::Running => "Running"@,
        AgentCoreState::Stopped => "Stopped"@,
        AgentCoreState::Unknown => "Unknown"@,
    }
}

fn core_state_name(value: AgentCoreState) -> (name: &'static str)
    ensures
        name@ == core_state_word(value),
{
    match value {
        AgentCoreState::Running => "Running",
        AgentCoreState::Stopped => "Stopped",
        AgentCoreState::Unknown => "Unknown",
    }
}

/// The name of a `AgentRunType` in the revision material.
pub open spec fn run_type_word(value: AgentRunType) -> Seq<char> {
    match value {
        AgentRunType::Normal => "Normal"@,
        AgentRunType::Service => "Service"@,
        AgentRunType::Elevated => "Elevated"@,
        AgentRunType::Unknown => "Unknown"@,
    }
}

fn run_type_name(value: AgentRunType) -> (name: &'static str)
    ensures
        name@ == run_type_word(value),
{
    match value {
        AgentRunType::Normal => "Normal",
        AgentRunType::Service => "Service",
        AgentRunType::Elevated => "Elevated",
        AgentRunType::Unknown => "Unknown",
    }
}

/// The name of a `AgentRoutingMode` in the revision material.
pub open spec fn routing_mode_word(value: AgentRoutingMode) -> Seq<char> {
    match value {
        AgentRoutingMode::Rule => "Rule"@,
        AgentRoutingMode::Global => "Global"@,
        AgentRoutingMode::Direct => "Direct"@,
    }
}

fn routing_mode_name(value: AgentRoutingMode) -> (name: &'static str)
    ensures
        name@ == routing_mode_word(value),
{
    match value {
        AgentRoutingMode::Rule => "Rule",
        AgentRoutingMode::Global => "Global",
        AgentRoutingMode::Direct => "Direct",
    }
}

/// The name of a `AgentServiceState` in the revision material.
pub open spec fn service_state_word(value: AgentServiceState) -> Seq<char> {
    match value {
        AgentServiceState::NotInstalled => "NotInstalled"@,
        AgentServiceState::Stopped => "Stopped"@,
        AgentServiceState::Running => "Running"@,
        AgentServiceState::Unknown => "Unknown"@,
    }
}

fn service_state_name(value: AgentServiceState) -> (name: &'static str)
    ensures
        name@ == service_state_word(value),
{
    match value {
        AgentServiceState::NotInstalled => "NotInstalled",
        AgentServiceState::Stopped => "Stopped",
        AgentServiceState::Running => "Running",
        AgentServiceState::Unknown => "Unknown",
    }
}

/// The name of a `AgentHostConnectivityStatus` in the revision material.
pub open spec fn connectivity_status_word(value: AgentHostConnectivityStatus) -> Seq<char> {
    match value {
        AgentHostConnectivityStatus::OnlineDualStack => "OnlineDualStack"@,
        AgentHostConnectivityStatus::OnlineIpv4Only => "OnlineIpv4Only"@,
        AgentHostConnectivityStatus::OnlineIpv6Only => "OnlineIpv6Only"@,
        AgentHostConnectivityStatus::LinkDisconnected => "LinkDisconnected"@,
        AgentHostConnectivityStatus::AddressUnavailable => "AddressUnavailable"@,
        AgentHostConnectivityStatus::DefaultRouteUnavailable => "DefaultRouteUnavailable"@,
        AgentHostConnectivityStatus::DnsUnavailable => "DnsUnavailable"@,
        AgentHostConnectivityStatus::CaptivePortalSuspected => "CaptivePortalSuspected"@,
        AgentHostConnectivityStatus::InternetUnreachable => "InternetUnreachable"@,
        AgentHostConnectivityStatus::Indeterminate => "Indeterminate"@,
    }
}

fn connectivity_status_name(value: AgentHostConnectivityStatus) -> (name: &'static str)
    ensures
        name@ == connectivity_status_word(value),
{
    match value {
        AgentHostConnectivityStatus::OnlineDualStack => "OnlineDualStack",
        AgentHostConnectivityStatus::OnlineIpv4Only => "OnlineIpv4Only",
        AgentHostConnectivityStatus::OnlineIpv6Only => "OnlineIpv6Only",
        AgentHostConnectivityStatus::LinkDisconnected => "LinkDisconnected",
        AgentHostConnectivityStatus::AddressUnavailable => "AddressUnavailable",
        AgentHostConnectivityStatus::DefaultRouteUnavailable => "DefaultRouteUnavailable",
        AgentHostConnectivityStatus::DnsUnavailable => "DnsUnavailable",
        AgentHostConnectivityStatus::CaptivePortalSuspected => "CaptivePortalSuspected",
        AgentHostConnectivityStatus::InternetUnreachable => "InternetUnreachable",
        AgentHostConnectivityStatus::Indeterminate => "Indeterminate",
    }
}

/// The name of a `AgentNetworkInterfaceKind` in the revision material.
/// (`NoInterface` is written `None`.)
pub open spec fn interface_kind_word(value: AgentNetworkInterfaceKind) -> Seq<char> {
    match value {
        AgentNetworkInterfaceKind::Wireless => "Wireless"@,
        AgentNetworkInterfaceKind::Ethernet => "Ethernet"@,
        AgentNetworkInterfaceKind::Other => "Other"@,
        AgentNetworkInterfaceKind::Multiple => "Multiple"@,
        AgentNetworkInterfaceKind::NoInterface => "None"@,
        AgentNetworkInterfaceKind::Unknown => "Unknown"@,
    }
}

fn interface_kind_name(value: AgentNetworkInterfaceKind) -> (name: &'static str)
    ensures
        name@ == interface_kind_word(value),
{
    match value {
        AgentNetworkInterfaceKind::Wireless => "Wireless",
        AgentNetworkInterfaceKind::Ethernet => "Ethernet",
        AgentNetworkInterfaceKind::Other => "Other",
        AgentNetworkInterfaceKind::Multiple => "Multiple",
        AgentNetworkInterfaceKind::NoInterface => "None",
        AgentNetworkInterfaceKind::Unknown => "Unknown",
    }
}

/// The name of a `AgentProcessPrivilegeStatus` in the revision material.
pub open spec fn privilege_word(value: AgentProcessPrivilegeStatus) -> Seq<char> {
    match value {
        AgentProcessPrivilegeStatus::Standard => "Standard"@,
        AgentProcessPrivilegeStatus::Elevated => "Elevated"@,
        AgentProcessPrivilegeStatus::Unknown => "Unknown"@,
    }
}

fn privilege_name(value: AgentProcessPrivilegeStatus) -> (name: &'static str)
    ensures
        name@ == privilege_word(value),
{
    match value {
        AgentProcessPrivilegeStatus::Standard => "Standard",
        AgentProcessPrivilegeStatus::Elevated => "Elevated",
        AgentProcessPrivilegeStatus::Unknown => "Unknown",
    }
}

/// The name of a `AgentTunPermissionReadiness` in the revision material.
pub open spec fn tun_permission_word(value: AgentTunPermissionReadiness) -> Seq<char> {
    match value {
        AgentTunPermissionReadiness::NotRequired => "NotRequired"@,
        AgentTunPermissionReadiness::Satisfied => "Satisfied"@,
        AgentTunPermissionReadiness::ServiceAlternativeAvailable => "ServiceAlternativeAvailable"@,
        AgentTunPermissionReadiness::Required => "Required"@,
        AgentTunPermissionReadiness::Indeterminate => "Indeterminate"@,
    }
}

fn tun_permission_name(value: AgentTunPermissionReadiness) -> (name: &'static str)
    ensures
        name@ == tun_permission_word(value),
{
    match value {
        AgentTunPermissionReadiness::NotRequired => "NotRequired",
        AgentTunPermissionReadiness::Satisfied => "Satisfied",
        AgentTunPermissionReadiness::ServiceAlternativeAvailable => "ServiceAlternativeAvailable",
        AgentTunPermissionReadiness::Required => "Required",
        AgentTunPermissionReadiness::Indeterminate => "Indeterminate",
    }
}

/// The name of a `AgentTunVerificationStatus` in the revision material.
pub open spec fn tun_verification_word(value: AgentTunVerificationStatus) -> Seq<char> {
    match value {
        AgentTunVerificationStatus::NotRequested => "NotRequested"@,
        AgentTunVerificationStatus::Verified => "Verified"@,
        AgentTunVerificationStatus::Unavailable => "Unavailable"@,
        AgentTunVerificationStatus::Inconsistent => "Inconsistent"@,
    }
}

fn tun_verification_name(value: AgentTunVerificationStatus) -> (name: &'static str)
    ensures
        name@ == tun_verification_word(value),
{
    match value {
        AgentTunVerificationStatus::NotRequested => "NotRequested",
        AgentTunVerificationStatus::Verified => "Verified",
        AgentTunVerificationStatus::Unavailable => "Unavailable",
        AgentTunVerificationStatus::Inconsistent => "Inconsistent",
    }
}

/// The name of a `AgentSystemDnsVerificationStatus` in the revision material.
pub open spec fn dns_verification_word(value: AgentSystemDnsVerificationStatus) -> Seq<char> {
    match value {
        AgentSystemDnsVerificationStatus::NotRequired => "NotRequired"@,
        AgentSystemDnsVerificationStatus::Verified => "Verified"@,
        AgentSystemDnsVerificationStatus::NotConfigured => "NotConfigured"@,
        AgentSystemDnsVerificationStatus::ResolutionFailed => "ResolutionFailed"@,
        AgentSystemDnsVerificationStatus::Unavailable => "Unavailable"@,
    }
}

fn dns_verification_name(value: AgentSystemDnsVerificationStatus) -> (name: &'static str)
    ensures
        name@ == dns_verification_word(value),
{
    match value {
        AgentSystemDnsVerificationStatus::NotRequired => "NotRequired",
        AgentSystemDnsVerificationStatus::Verified => "Verified",
        AgentSystemDnsVerificationStatus::NotConfigured => "NotConfigured",
        AgentSystemDnsVerificationStatus::ResolutionFailed => "ResolutionFailed",
        AgentSystemDnsVerificationStatus::Unavailable => "Unavailable",
    }
}

/// The texts that the revision material joins, in order: the schema version and each input.
pub open spec fn revision_fields(i: RevisionInputs) -> Seq<Seq<char>> {
    seq![
        decimal_digits(NETWORK_SNAPSHOT_SCHEMA_VERSION as nat),
        core_state_word(i.core_state),
        run_type_word(i.run_type),
        signed_text(i.state_changed_at as int),
        optional_text(optional_mode(i.routing_mode)),
        optional_text(optional_mode(i.observed_routing_mode)),
        bool_text(i.service_desired_enabled),
        service_state_word(i.service_state),
        optional_text(optional_bool(i.proxy_observed_enabled)),
        optional_text(optional_port(i.proxy_observed_port)),
        bool_text(i.tun_desired_enabled),
        optional_text(optional_bool(i.tun_generated_runtime_enabled)),
        connectivity_status_word(i.connectivity_status),
        interface_kind_word(i.active_interface_kind),
        optional_text(optional_bool(i.link_up)),
        bool_text(i.ipv4_usable_ip),
        bool_text(i.ipv6_usable_ip),
        optional_text(optional_bool(i.dns_resolves)),
        optional_text(optional_bool(i.captive_portal_suspected)),
        privilege_word(i.process_privilege),
        tun_permission_word(i.tun_permission),
        tun_verification_word(i.tun_verification),
        dns_verification_word(i.system_dns_verification),
    ]
}

pub open spec fn optional_mode(mode: Option<AgentRoutingMode>) -> Option<Seq<char>> {
    match mode {
        Some(m) => Some(routing_mode_word(m)),
        None => None,
    }
}

pub open spec fn optional_bool(value: Option<bool>) -> Option<Seq<char>> {
    match value {
        Some(b) => Some(bool_text(b)),
        None => None,
    }
}

pub open spec fn optional_port(port: Option<u16>) -> Option<Seq<char>> {
    match port {
        Some(p) => Some(decimal_digits(p as nat)),
        None => None,
    }
}

/// Texts joined with a colon between each two.
pub open spec fn joined(parts: Seq<Seq<char>>) -> Seq<char>
    decreases parts.len(),
{
    if parts.len() == 0 {
        seq![]
    } else if parts.len() == 1 {
        parts[0]
    } else {
        joined(parts.drop_last()) + ":"@ + parts.last()
    }
}

/// The text a revision digests: the schema version and each input, joined by colons.
pub open spec fn revision_material_of(inputs: RevisionInputs) -> Seq<char> {
    joined(revision_fields(inputs))
}

fn text(s: &str) -> (t: String)
    ensures
        t@ == s@,
{
    s.to_owned()
}

fn bool_string(b: bool) -> (t: String)
    ensures
        t@ == bool_text(b),
{
    if b {
        text("true")
    } else {
        text("false")
    }
}

fn signed_string(n: i64) -> (t: String)
    ensures
        t@ == signed_text(n as int),
{
    if n < 0 {
        let magnitude: u64 = (0i128 - (n as i128)) as u64;
        let digits = decimal_string(magnitude);
        let mut t = text("-");
        append_chars(&mut t, digits.as_str());
        t
    } else {
        decimal_string(n as u64)
    }
}

fn optional_string(value: Option<String>) -> (t: String)
    ensures
        t@ == optional_text(
            match value {
                Some(v) => Some(v@),
                None => None,
            },
        ),
{
    match value {
        Some(v) => {
            let mut t = text("Some(");
            append_chars(&mut t, v.as_str());
            append_chars(&mut t, ")");
            t
        },
        None => text("None"),
    }
}

fn optional_bool_string(value: Option<bool>) -> (t: String)
    ensures
        t@ == optional_text(optional_bool(value)),
{
    match value {
        Some(b) => optional_string(Some(bool_string(b))),
        None => optional_string(None),
    }
}

fn optional_port_string(port: Option<u16>) -> (t: String)
    ensures
        t@ == optional_text(optional_port(port)),
{
    match port {
        Some(p) => optional_string(Some(decimal_string(p as u64))),
        None => optional_string(None),
    }
}

fn optional_mode_string(mode: Option<AgentRoutingMode>) -> (t: String)
    ensures
        t@ == optional_text(optional_mode(mode)),
{
    match mode {
        Some(m) => optional_string(Some(text(routing_mode_name(m)))),
        None => optional_string(None),
    }
}

pub open spec fn views(parts: Seq<String>) -> Seq<Seq<char>> {
    parts.map_values(|p: String| p@)
}

/// Joins the texts with a colon between each two.
fn join_with_colons(parts: &Vec<String>) -> (s: String)
    ensures
        s@ == joined(views(parts@)),
{
    let mut s = String::new();
    let mut k: usize = 0;
    while k < parts.len()
        invariant
            k <= parts@.len(),
            s@ == joined(views(parts@).take(k as int)),
        decreases parts@.len() - k,
    {
        let ghost before = s@;
        if k > 0 {
            append_chars(&mut s, ":");
        }
        append_chars(&mut s, parts[k].as_str());
        proof {
            let v = views(parts@);
            assert(v.take(k as int + 1).drop_last() =~= v.take(k as int));
            assert(v.take(k as int + 1).last() == parts@[k as int]@);
            if k == 0 {
                assert(s@ =~= parts@[0]@);
            }
        }
        k = k + 1;
    }
    assert(views(parts@).take(parts@.len() as int) =~= views(parts@));
    s
}

/// Writes the revision material of the inputs.
pub fn revision_material(i: RevisionInputs) -> (material: String)
    ensures
        material@ == revision_material_of(i),
{
    let parts = vec![
        decimal_string(NETWORK_SNAPSHOT_SCHEMA_VERSION as u64),
        text(core_state_name(i.core_state)),
        text(run_type_name(i.run_type)),
        signed_string(i.state_changed_at),
        optional_mode_string(i.routing_mode),
        optional_mode_string(i.observed_routing_mode),
        bool_string(i.service_desired_enabled),
        text(service_state_name(i.service_state)),
        optional_bool_string(i.proxy_observed_enabled),
        optional_port_string(i.proxy_observed_port),
        bool_string(i.tun_desired_enabled),
        optional_bool_string(i.tun_generated_runtime_enabled),
        text(connectivity_status_name(i.connectivity_status)),
        text(interface_kind_name(i.active_interface_kind)),
        optional_bool_string(i.link_up),
        bool_string(i.ipv4_usable_ip),
        bool_string(i.ipv6_usable_ip),
        optional_bool_string(i.dns_resolves),
        optional_bool_string(i.captive_portal_suspected),
        text(privilege_name(i.process_privilege)),
        text(tun_permission_name(i.tun_permission)),
        text(tun_verification_name(i.tun_verification)),
        text(dns_verification_name(i.system_dns_verification)),
    ];
    assert(views(parts@) =~= revision_fields(i));
    join_with_colons(&parts)
}

/// The revision of revision inputs: the SHA-256 of their material, in lowercase hexadecimal.
pub open spec fn revision_of(inputs: RevisionInputs) -> Seq<char> {
    lower_hex(sha256_of(vstd::utf8::encode_utf8(revision_material_of(inputs))))
}

/// The revision of a snapshot's sections.
pub fn snapshot_revision(
    core: &AgentCoreSnapshot,
    service: &AgentServiceSnapshot,
    proxy: &AgentSystemProxySnapshot,
    tun: &AgentTunSnapshot,
    connectivity: &AgentHostConnectivitySnapshot,
    readiness: &AgentPlatformReadinessSnapshot,
) -> (revision: String)
    ensures
        revision@ == revision_of(revision_inputs_of(*core, *service, *proxy, *tun, *connectivity, *readiness)),
{
    let inputs = RevisionInputs {
        core_state: core.state,
        run_type: core.run_type,
        state_changed_at: core.state_changed_at,
        routing_mode: core.routing_mode,
        observed_routing_mode: core.observed_routing_mode,
        service_desired_enabled: service.desired_enabled,
        service_state: service.state,
        proxy_observed_enabled: proxy.observed_enabled,
        proxy_observed_port: proxy.observed_port,
        tun_desired_enabled: tun.desired_enabled,
        tun_generated_runtime_enabled: tun.generated_runtime_enabled,
        connectivity_status: connectivity.status,
        active_interface_kind: connectivity.active_interface_kind,
        link_up: connectivity.link_up,
        ipv4_usable_ip: connectivity.ipv4.usable_ip,
        ipv6_usable_ip: connectivity.ipv6.usable_ip,
        dns_resolves: connectivity.dns_resolves,
        captive_portal_suspected: connectivity.captive_portal_suspected,
        process_privilege: readiness.process_privilege,
        tun_permission: readiness.tun_permission,
        tun_verification: readiness.tun_verification,
        system_dns_verification: readiness.system_dns_verification,
    };
    let material = revision_material(inputs);
    let digest = sha256(material.as_str().as_bytes());
    hex_encode(digest.as_slice())
}

} // verus!
