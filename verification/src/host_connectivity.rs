//! Classification of host connectivity evidence into a closed status and reasons.
use vstd::prelude::*;

use crate::model::{
    AgentHostConnectivityReason, AgentHostConnectivitySnapshot, AgentHostConnectivityStatus,
    AgentIpFamilyConnectivity, AgentNetworkInterfaceKind,
};

verus! {

/// What a platform probe observed of the host network, without any names or addresses.
#[derive(Debug, Clone, Copy, PartialEq, Eq, Structural)]
pub struct HostConnectivityEvidence {
    pub wireless_present: bool,
    pub wireless_connected: bool,
    pub ethernet_present: bool,
    pub ethernet_connected: bool,
    pub other_interface_connected: bool,
    pub ipv4_usable_address: bool,
    pub ipv4_default_route: bool,
    pub ipv4_internet_reachable: Option<bool>,
    pub ipv6_usable_address: bool,
    pub ipv6_default_route: bool,
    pub ipv6_internet_reachable: Option<bool>,
    pub dns_configured: Option<bool>,
    pub dns_resolves: Option<bool>,
    pub captive_portal_suspected: Option<bool>,
    pub probe_complete: bool,
}

/// Evidence of a probe that observed nothing.
pub open spec fn empty_evidence() -> HostConnectivityEvidence {
    HostConnectivityEvidence {
        wireless_present: false,
        wireless_connected: false,
        ethernet_present: false,
        ethernet_connected: false,
        other_interface_connected: false,
        ipv4_usable_address: false,
        ipv4_default_route: false,
        ipv4_internet_reachable: None,
        ipv6_usable_address: false,
        ipv6_default_route: false,
        ipv6_internet_reachable: None,
        dns_configured: None,
        dns_resolves: None,
        captive_portal_suspected: None,
        probe_complete: false,
    }
}

impl Default for HostConnectivityEvidence {
    fn default() -> (evidence: Self)
        ensures
            evidence == empty_evidence(),
    {
        HostConnectivityEvidence {
            wireless_present: false,
            wireless_connected: false,
            ethernet_present: false,
            ethernet_connected: false,
            other_interface_connected: false,
            ipv4_usable_address: false,
            ipv4_default_route: false,
            ipv4_internet_reachable: None,
            ipv6_usable_address: false,
            ipv6_default_route: false,
            ipv6_internet_reachable: None,
            dns_configured: None,
            dns_resolves: None,
            captive_portal_suspected: None,
            probe_complete: false,
        }
    }
}

/// Some interface is connected.
pub open spec fn spec_link_up(e: HostConnectivityEvidence) -> bool {
    e.wireless_connected || e.ethernet_connected || e.other_interface_connected
}

/// The kind of the active interface.
pub open spec fn spec_interface_kind(e: HostConnectivityEvidence) -> AgentNetworkInterfaceKind {
    let connected = (if e.wireless_connected { 1int } else { 0int }) + (if e.ethernet_connected {
        1int
    } else {
        0int
    }) + (if e.other_interface_connected { 1int } else { 0int });
    if connected >= 2 {
        AgentNetworkInterfaceKind::Multiple
    } else if e.wireless_connected {
        AgentNetworkInterfaceKind::Wireless
    } else if e.ethernet_connected {
        AgentNetworkInterfaceKind::Ethernet
    } else if e.other_interface_connected {
        AgentNetworkInterfaceKind::Other
    } else if e.probe_complete {
        AgentNetworkInterfaceKind::NoInterface
    } else {
        AgentNetworkInterfaceKind::Unknown
    }
}

/// A usable address of some family has a default route.
pub open spec fn spec_has_default_route(e: HostConnectivityEvidence) -> bool {
    (e.ipv4_usable_address && e.ipv4_default_route) || (e.ipv6_usable_address && e.ipv6_default_route)
}

pub open spec fn reason_if(condition: bool, reason: AgentHostConnectivityReason) -> Seq<AgentHostConnectivityReason> {
    if condition {
        seq![reason]
    } else {
        seq![]
    }
}

/// The reasons derived from evidence of a complete probe, in report order, given whether the
/// link is up.
pub open spec fn complete_reasons_for(e: HostConnectivityEvidence, link_up: bool) -> Seq<
    AgentHostConnectivityReason,
> {
    reason_if(!link_up, AgentHostConnectivityReason::NoActiveInterface)
        + reason_if(!link_up && e.wireless_present && !e.wireless_connected, AgentHostConnectivityReason::WirelessDisconnected)
        + reason_if(!link_up && e.ethernet_present && !e.ethernet_connected, AgentHostConnectivityReason::EthernetDisconnected)
        + reason_if(link_up && !e.ipv4_usable_address, AgentHostConnectivityReason::NoUsableIpv4Address)
        + reason_if(link_up && !e.ipv6_usable_address, AgentHostConnectivityReason::NoUsableIpv6Address)
        + reason_if(e.ipv4_usable_address && !e.ipv4_default_route, AgentHostConnectivityReason::NoIpv4DefaultRoute)
        + reason_if(e.ipv6_usable_address && !e.ipv6_default_route, AgentHostConnectivityReason::NoIpv6DefaultRoute)
        + reason_if(e.dns_configured == Some(false), AgentHostConnectivityReason::DnsNotConfigured)
        + reason_if(e.dns_resolves == Some(false), AgentHostConnectivityReason::DnsResolutionFailed)
        + reason_if(e.ipv4_usable_address && e.ipv4_internet_reachable == Some(false), AgentHostConnectivityReason::Ipv4InternetUnreachable)
        + reason_if(e.ipv6_usable_address && e.ipv6_internet_reachable == Some(false), AgentHostConnectivityReason::Ipv6InternetUnreachable)
        + reason_if(e.captive_portal_suspected == Some(true), AgentHostConnectivityReason::CaptivePortalSuspected)
}

/// The reasons derived from evidence of a complete probe, in report order.
pub open spec fn spec_complete_reasons(e: HostConnectivityEvidence) -> Seq<AgentHostConnectivityReason> {
    complete_reasons_for(e, spec_link_up(e))
}

/// The status that reachability decides once link, address, route, DNS and
/// captive-portal checks have passed; `None` when the reachability probes do not decide.
pub open spec fn spec_reachability_status(e: HostConnectivityEvidence) -> Option<AgentHostConnectivityStatus> {
    match (e.ipv4_internet_reachable, e.ipv6_internet_reachable) {
        (Some(true), Some(true)) => Some(AgentHostConnectivityStatus::OnlineDualStack),
        (Some(true), _) => Some(AgentHostConnectivityStatus::OnlineIpv4Only),
        (_, Some(true)) => Some(AgentHostConnectivityStatus::OnlineIpv6Only),
        (Some(false), Some(false)) => Some(AgentHostConnectivityStatus::InternetUnreachable),
        (Some(false), None) => if !e.ipv6_usable_address {
            Some(AgentHostConnectivityStatus::InternetUnreachable)
        } else {
            None
        },
        (None, Some(false)) => if !e.ipv4_usable_address {
            Some(AgentHostConnectivityStatus::InternetUnreachable)
        } else {
            None
        },
        _ => None,
    }
}

/// The status of the host, checked from the link upwards, given whether the link is up.
pub open spec fn status_for(e: HostConnectivityEvidence, link_up: bool) -> AgentHostConnectivityStatus {
    if !e.probe_complete {
        AgentHostConnectivityStatus::Indeterminate
    } else if !link_up {
        AgentHostConnectivityStatus::LinkDisconnected
    } else if !e.ipv4_usable_address && !e.ipv6_usable_address {
        AgentHostConnectivityStatus::AddressUnavailable
    } else if !spec_has_default_route(e) {
        AgentHostConnectivityStatus::DefaultRouteUnavailable
    } else if e.dns_configured == Some(false) || e.dns_resolves == Some(false) {
        AgentHostConnectivityStatus::DnsUnavailable
    } else if e.captive_portal_suspected == Some(true) {
        AgentHostConnectivityStatus::CaptivePortalSuspected
    } else {
        match spec_reachability_status(e) {
            Some(status) => status,
            None => AgentHostConnectivityStatus::Indeterminate,
        }
    }
}

/// The status of the host, checked from the link upwards.
pub open spec fn spec_status(e: HostConnectivityEvidence) -> AgentHostConnectivityStatus {
    status_for(e, spec_link_up(e))
}

/// The reasons reported with the status.
pub open spec fn spec_reasons(e: HostConnectivityEvidence) -> Seq<AgentHostConnectivityReason> {
    if !e.probe_complete {
        seq![AgentHostConnectivityReason::ProbeUnavailable]
    } else if spec_link_up(e) && (e.ipv4_usable_address || e.ipv6_usable_address) && spec_has_default_route(e)
        && e.dns_configured != Some(false) && e.dns_resolves != Some(false)
        && e.captive_portal_suspected != Some(true) && spec_reachability_status(e) is None {
        spec_complete_reasons(e).push(AgentHostConnectivityReason::ProbeUnavailable)
    } else {
        spec_complete_reasons(e)
    }
}

/// The snapshot that a body of evidence is diagnosed as.
pub open spec fn spec_diagnose(e: HostConnectivityEvidence, s: AgentHostConnectivitySnapshot) -> bool {
    &&& s.status == spec_status(e)
    &&& s.active_interface_kind == spec_interface_kind(e)
    &&& s.link_up == (if e.probe_complete { Some(spec_link_up(e)) } else { None })
    &&& s.ipv4 == AgentIpFamilyConnectivity {
        usable_ip: e.ipv4_usable_address,
        default_route: e.ipv4_default_route,
        internet_reachable: e.ipv4_internet_reachable,
    }
    &&& s.ipv6 == AgentIpFamilyConnectivity {
        usable_ip: e.ipv6_usable_address,
        default_route: e.ipv6_default_route,
        internet_reachable: e.ipv6_internet_reachable,
    }
    &&& s.dns_configured == e.dns_configured
    &&& s.dns_resolves == e.dns_resolves
    &&& s.captive_portal_suspected == e.captive_portal_suspected
    &&& s.reasons@ == spec_reasons(e)
}

pub fn active_interface_kind(evidence: HostConnectivityEvidence) -> (kind: AgentNetworkInterfaceKind)
    ensures
        kind == spec_interface_kind(evidence),
{
    match (evidence.wireless_connected, evidence.ethernet_connected, evidence.other_interface_connected) {
        (true, true, _) | (true, false, true) | (false, true, true) => AgentNetworkInterfaceKind::Multiple,
        (true, false, false) => AgentNetworkInterfaceKind::Wireless,
        (false, true, false) => AgentNetworkInterfaceKind::Ethernet,
        (false, false, true) => AgentNetworkInterfaceKind::Other,
        (false, false, false) => if evidence.probe_complete {
            AgentNetworkInterfaceKind::NoInterface
        } else {
            AgentNetworkInterfaceKind::Unknown
        },
    }
}

pub fn link_is_up(evidence: HostConnectivityEvidence) -> (up: bool)
    ensures
        up == spec_link_up(evidence),
{
    evidence.wireless_connected || evidence.ethernet_connected || evidence.other_interface_connected
}

pub fn has_default_route(evidence: HostConnectivityEvidence) -> (routed: bool)
    ensures
        routed == spec_has_default_route(evidence),
{
    (evidence.ipv4_usable_address && evidence.ipv4_default_route) || (evidence.ipv6_usable_address
        && evidence.ipv6_default_route)
}

fn is_some_value(value: Option<bool>, expected: bool) -> (equal: bool)
    ensures
        equal == (value == Some(expected)),
{
    match value {
        Some(v) => v == expected,
        None => false,
    }
}

pub fn push_reason(reasons: &mut Vec<AgentHostConnectivityReason>, condition: bool, reason: AgentHostConnectivityReason)
    ensures
        final(reasons)@ == old(reasons)@ + reason_if(condition, reason),
{
    if condition {
        reasons.push(reason);
    }
    assert(final(reasons)@ =~= old(reasons)@ + reason_if(condition, reason));
}

pub fn append_address_route_reasons(
    reasons: &mut Vec<AgentHostConnectivityReason>,
    evidence: HostConnectivityEvidence,
    link_up: bool,
)
    ensures
        final(reasons)@ == old(reasons)@
            + reason_if(link_up && !evidence.ipv4_usable_address, AgentHostConnectivityReason::NoUsableIpv4Address)
            + reason_if(link_up && !evidence.ipv6_usable_address, AgentHostConnectivityReason::NoUsableIpv6Address)
            + reason_if(evidence.ipv4_usable_address && !evidence.ipv4_default_route, AgentHostConnectivityReason::NoIpv4DefaultRoute)
            + reason_if(evidence.ipv6_usable_address && !evidence.ipv6_default_route, AgentHostConnectivityReason::NoIpv6DefaultRoute),
{
    push_reason(reasons, link_up && !evidence.ipv4_usable_address, AgentHostConnectivityReason::NoUsableIpv4Address);
    push_reason(reasons, link_up && !evidence.ipv6_usable_address, AgentHostConnectivityReason::NoUsableIpv6Address);
    push_reason(
        reasons,
        evidence.ipv4_usable_address && !evidence.ipv4_default_route,
        AgentHostConnectivityReason::NoIpv4DefaultRoute,
    );
    push_reason(
        reasons,
        evidence.ipv6_usable_address && !evidence.ipv6_default_route,
        AgentHostConnectivityReason::NoIpv6DefaultRoute,
    );
}

pub fn append_dns_reasons(reasons: &mut Vec<AgentHostConnectivityReason>, evidence: HostConnectivityEvidence)
    ensures
        final(reasons)@ == old(reasons)@
            + reason_if(evidence.dns_configured == Some(false), AgentHostConnectivityReason::DnsNotConfigured)
            + reason_if(evidence.dns_resolves == Some(false), AgentHostConnectivityReason::DnsResolutionFailed),
{
    push_reason(reasons, is_some_value(evidence.dns_configured, false), AgentHostConnectivityReason::DnsNotConfigured);
    push_reason(reasons, is_some_value(evidence.dns_resolves, false), AgentHostConnectivityReason::DnsResolutionFailed);
}

pub fn append_reachability_reasons(reasons: &mut Vec<AgentHostConnectivityReason>, evidence: HostConnectivityEvidence)
    ensures
        final(reasons)@ == old(reasons)@
            + reason_if(evidence.ipv4_usable_address && evidence.ipv4_internet_reachable == Some(false), AgentHostConnectivityReason::Ipv4InternetUnreachable)
            + reason_if(evidence.ipv6_usable_address && evidence.ipv6_internet_reachable == Some(false), AgentHostConnectivityReason::Ipv6InternetUnreachable)
            + reason_if(evidence.captive_portal_suspected == Some(true), AgentHostConnectivityReason::CaptivePortalSuspected),
{
    push_reason(
        reasons,
        evidence.ipv4_usable_address && is_some_value(evidence.ipv4_internet_reachable, false),
        AgentHostConnectivityReason::Ipv4InternetUnreachable,
    );
    push_reason(
        reasons,
        evidence.ipv6_usable_address && is_some_value(evidence.ipv6_internet_reachable, false),
        AgentHostConnectivityReason::Ipv6InternetUnreachable,
    );
    push_reason(
        reasons,
        is_some_value(evidence.captive_portal_suspected, true),
        AgentHostConnectivityReason::CaptivePortalSuspected,
    );
}

pub fn connectivity_reasons(evidence: HostConnectivityEvidence, link_up: bool) -> (reasons: Vec<AgentHostConnectivityReason>)
    ensures
        reasons@ == (if evidence.probe_complete {
            complete_reasons_for(evidence, link_up)
        } else {
            seq![AgentHostConnectivityReason::ProbeUnavailable]
        }),
{
    let mut reasons: Vec<AgentHostConnectivityReason> = Vec::new();
    if !evidence.probe_complete {
        reasons.push(AgentHostConnectivityReason::ProbeUnavailable);
        assert(reasons@ =~= seq![AgentHostConnectivityReason::ProbeUnavailable]);
        return reasons;
    }
    push_reason(&mut reasons, !link_up, AgentHostConnectivityReason::NoActiveInterface);
    push_reason(
        &mut reasons,
        !link_up && evidence.wireless_present && !evidence.wireless_connected,
        AgentHostConnectivityReason::WirelessDisconnected,
    );
    push_reason(
        &mut reasons,
        !link_up && evidence.ethernet_present && !evidence.ethernet_connected,
        AgentHostConnectivityReason::EthernetDisconnected,
    );
    append_address_route_reasons(&mut reasons, evidence, link_up);
    append_dns_reasons(&mut reasons, evidence);
    append_reachability_reasons(&mut reasons, evidence);
    assert(reasons@ =~= complete_reasons_for(evidence, link_up));
    reasons
}

pub fn connectivity_status(
    evidence: HostConnectivityEvidence,
    link_up: bool,
    reasons: &mut Vec<AgentHostConnectivityReason>,
) -> (status: AgentHostConnectivityStatus)
    ensures
        status == status_for(evidence, link_up),
        final(reasons)@ == (if evidence.probe_complete && link_up && (evidence.ipv4_usable_address
            || evidence.ipv6_usable_address) && spec_has_default_route(evidence)
            && evidence.dns_configured != Some(false) && evidence.dns_resolves != Some(false)
            && evidence.captive_portal_suspected != Some(true) && spec_reachability_status(evidence) is None {
            old(reasons)@.push(AgentHostConnectivityReason::ProbeUnavailable)
        } else {
            old(reasons)@
        }),
{
    if !evidence.probe_complete {
        return AgentHostConnectivityStatus::Indeterminate;
    }
    if !link_up {
        return AgentHostConnectivityStatus::LinkDisconnected;
    }
    if !evidence.ipv4_usable_address && !evidence.ipv6_usable_address {
        return AgentHostConnectivityStatus::AddressUnavailable;
    }
    if !has_default_route(evidence) {
        return AgentHostConnectivityStatus::DefaultRouteUnavailable;
    }
    if is_some_value(evidence.dns_configured, false) || is_some_value(evidence.dns_resolves, false) {
        return AgentHostConnectivityStatus::DnsUnavailable;
    }
    if is_some_value(evidence.captive_portal_suspected, true) {
        return AgentHostConnectivityStatus::CaptivePortalSuspected;
    }
    match (evidence.ipv4_internet_reachable, evidence.ipv6_internet_reachable) {
        (Some(true), Some(true)) => AgentHostConnectivityStatus::OnlineDualStack,
        (Some(true), _) => AgentHostConnectivityStatus::OnlineIpv4Only,
        (_, Some(true)) => AgentHostConnectivityStatus::OnlineIpv6Only,
        (Some(false), Some(false)) => AgentHostConnectivityStatus::InternetUnreachable,
        (Some(false), None) if !evidence.ipv6_usable_address => AgentHostConnectivityStatus::InternetUnreachable,
        (None, Some(false)) if !evidence.ipv4_usable_address => AgentHostConnectivityStatus::InternetUnreachable,
        _ => {
            reasons.push(AgentHostConnectivityReason::ProbeUnavailable);
            AgentHostConnectivityStatus::Indeterminate
        },
    }
}

pub fn diagnose_host_connectivity(evidence: HostConnectivityEvidence) -> (snapshot: AgentHostConnectivitySnapshot)
    ensures
        spec_diagnose(evidence, snapshot),
{
    let interface_kind = active_interface_kind(evidence);
    let link_up = link_is_up(evidence);
    let mut reasons = connectivity_reasons(evidence, link_up);
    let status = connectivity_status(evidence, link_up, &mut reasons);
    let link = if evidence.probe_complete {
        Some(link_up)
    } else {
        None
    };
    AgentHostConnectivitySnapshot {
        status,
        active_interface_kind: interface_kind,
        link_up: link,
        ipv4: AgentIpFamilyConnectivity {
            usable_ip: evidence.ipv4_usable_address,
            default_route: evidence.ipv4_default_route,
            internet_reachable: evidence.ipv4_internet_reachable,
        },
        ipv6: AgentIpFamilyConnectivity {
            usable_ip: evidence.ipv6_usable_address,
            default_route: evidence.ipv6_default_route,
            internet_reachable: evidence.ipv6_internet_reachable,
        },
        dns_configured: evidence.dns_configured,
        dns_resolves: evidence.dns_resolves,
        captive_portal_suspected: evidence.captive_portal_suspected,
        reasons,
    }
}

/// The snapshot reported when no probe could run.
pub fn unavailable_host_connectivity() -> (snapshot: AgentHostConnectivitySnapshot)
    ensures
        spec_diagnose(empty_evidence(), snapshot),
        snapshot.status == AgentHostConnectivityStatus::Indeterminate,
        snapshot.link_up == None::<bool>,
        snapshot.reasons@ == seq![AgentHostConnectivityReason::ProbeUnavailable],
{
    diagnose_host_connectivity(HostConnectivityEvidence::default())
}

/// An incomplete probe never claims anything about the link: it is indeterminate,
/// reports no link state and gives only the probe-unavailable reason.
pub proof fn lemma_incomplete_probe_fails_closed(e: HostConnectivityEvidence)
    requires
        !e.probe_complete,
    ensures
        spec_status(e) == AgentHostConnectivityStatus::Indeterminate,
        spec_reasons(e) == seq![AgentHostConnectivityReason::ProbeUnavailable],
        spec_interface_kind(e) != AgentNetworkInterfaceKind::NoInterface,
{
}

/// An online status is only reported for a complete probe of a connected, addressed
/// and routed host whose DNS works, and it names a family that reached the internet.
pub proof fn lemma_online_status_is_proven(e: HostConnectivityEvidence)
    requires
        spec_status(e) == AgentHostConnectivityStatus::OnlineDualStack || spec_status(e)
            == AgentHostConnectivityStatus::OnlineIpv4Only || spec_status(e)
            == AgentHostConnectivityStatus::OnlineIpv6Only,
    ensures
        e.probe_complete,
        spec_link_up(e),
        spec_has_default_route(e),
        e.dns_configured != Some(false),
        e.dns_resolves != Some(false),
        e.captive_portal_suspected != Some(true),
        spec_status(e) == AgentHostConnectivityStatus::OnlineDualStack ==> e.ipv4_internet_reachable
            == Some(true) && e.ipv6_internet_reachable == Some(true),
        spec_status(e) == AgentHostConnectivityStatus::OnlineIpv4Only ==> e.ipv4_internet_reachable
            == Some(true),
        spec_status(e) == AgentHostConnectivityStatus::OnlineIpv6Only ==> e.ipv6_internet_reachable
            == Some(true),
{
}

/// Every indeterminate status is explained by the probe-unavailable reason.
pub proof fn lemma_indeterminate_reports_probe_unavailable(e: HostConnectivityEvidence)
    requires
        spec_status(e) == AgentHostConnectivityStatus::Indeterminate,
    ensures
        spec_reasons(e).contains(AgentHostConnectivityReason::ProbeUnavailable),
{
    if e.probe_complete {
        let r = spec_reasons(e);
        assert(r[r.len() - 1] == AgentHostConnectivityReason::ProbeUnavailable);
    } else {
        assert(spec_reasons(e)[0] == AgentHostConnectivityReason::ProbeUnavailable);
    }
}

/// The active interface kind names the one connected interface: two or more connected
/// interfaces of any kinds are reported as several; a single connected wireless, Ethernet or
/// other interface is reported as such; with none connected, a complete probe reports no
/// interface and an incomplete one an unknown kind. The diagnosed snapshot carries this kind.
pub proof fn lemma_active_interface_kind_names_the_connected_interfaces(
    e: HostConnectivityEvidence,
    s: AgentHostConnectivitySnapshot,
)
    ensures
        (e.wireless_connected && e.ethernet_connected) || (e.wireless_connected
            && e.other_interface_connected) || (e.ethernet_connected && e.other_interface_connected)
            ==> spec_interface_kind(e) == AgentNetworkInterfaceKind::Multiple,
        spec_interface_kind(e) == AgentNetworkInterfaceKind::Wireless <==> (e.wireless_connected
            && !e.ethernet_connected && !e.other_interface_connected),
        spec_interface_kind(e) == AgentNetworkInterfaceKind::Ethernet <==> (!e.wireless_connected
            && e.ethernet_connected && !e.other_interface_connected),
        spec_interface_kind(e) == AgentNetworkInterfaceKind::Other <==> (!e.wireless_connected
            && !e.ethernet_connected && e.other_interface_connected),
        !e.wireless_connected && !e.ethernet_connected && !e.other_interface_connected ==> spec_interface_kind(e)
            == (if e.probe_complete {
            AgentNetworkInterfaceKind::NoInterface
        } else {
            AgentNetworkInterfaceKind::Unknown
        }),
        spec_diagnose(e, s) ==> s.active_interface_kind == spec_interface_kind(e),
{
}

} // verus!
