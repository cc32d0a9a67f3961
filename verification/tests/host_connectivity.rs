use chimera_agent::host_connectivity::{
    connectivity_reasons, connectivity_status, diagnose_host_connectivity, HostConnectivityEvidence,
};
use chimera_agent::model::{
    AgentHostConnectivityReason, AgentHostConnectivityStatus, AgentNetworkInterfaceKind,
};

fn connected_wifi() -> HostConnectivityEvidence {
    HostConnectivityEvidence {
        wireless_present: true,
        wireless_connected: true,
        ipv4_usable_address: true,
        ipv4_default_route: true,
        ipv4_internet_reachable: Some(true),
        dns_configured: Some(true),
        dns_resolves: Some(true),
        captive_portal_suspected: Some(false),
        probe_complete: true,
        ..HostConnectivityEvidence::default()
    }
}

#[test]
fn dual_stack_online_requires_both_families_to_reach_the_internet() {
    let snapshot = diagnose_host_connectivity(HostConnectivityEvidence {
        ipv6_usable_address: true,
        ipv6_default_route: true,
        ipv6_internet_reachable: Some(true),
        ..connected_wifi()
    });

    assert_eq!(
        snapshot.status,
        AgentHostConnectivityStatus::OnlineDualStack
    );
    assert_eq!(
        snapshot.active_interface_kind,
        AgentNetworkInterfaceKind::Wireless
    );
    assert_eq!(snapshot.link_up, Some(true));
    assert!(snapshot.reasons.is_empty());
}

#[test]
fn disconnected_wireless_and_ethernet_are_reported_without_guessing() {
    let snapshot = diagnose_host_connectivity(HostConnectivityEvidence {
        wireless_present: true,
        ethernet_present: true,
        probe_complete: true,
        ..HostConnectivityEvidence::default()
    });

    assert_eq!(
        snapshot.status,
        AgentHostConnectivityStatus::LinkDisconnected
    );
    assert_eq!(
        snapshot.active_interface_kind,
        AgentNetworkInterfaceKind::NoInterface
    );
    assert!(
        snapshot
            .reasons
            .contains(&AgentHostConnectivityReason::NoActiveInterface)
    );
    assert!(
        snapshot
            .reasons
            .contains(&AgentHostConnectivityReason::WirelessDisconnected)
    );
    assert!(
        snapshot
            .reasons
            .contains(&AgentHostConnectivityReason::EthernetDisconnected)
    );
}

#[test]
fn connected_adapter_without_a_usable_ip_is_address_unavailable() {
    let snapshot = diagnose_host_connectivity(HostConnectivityEvidence {
        ethernet_present: true,
        ethernet_connected: true,
        probe_complete: true,
        ..HostConnectivityEvidence::default()
    });

    assert_eq!(
        snapshot.status,
        AgentHostConnectivityStatus::AddressUnavailable
    );
    assert_eq!(
        snapshot.active_interface_kind,
        AgentNetworkInterfaceKind::Ethernet
    );
    assert!(
        snapshot
            .reasons
            .contains(&AgentHostConnectivityReason::NoUsableIpv4Address)
    );
    assert!(
        snapshot
            .reasons
            .contains(&AgentHostConnectivityReason::NoUsableIpv6Address)
    );
}

#[test]
fn usable_ip_without_a_default_route_is_reported_separately() {
    let snapshot = diagnose_host_connectivity(HostConnectivityEvidence {
        ipv4_default_route: false,
        ipv4_internet_reachable: None,
        ..connected_wifi()
    });

    assert_eq!(
        snapshot.status,
        AgentHostConnectivityStatus::DefaultRouteUnavailable
    );
    assert!(
        snapshot
            .reasons
            .contains(&AgentHostConnectivityReason::NoIpv4DefaultRoute)
    );
}

#[test]
fn dns_configuration_and_resolution_failures_have_distinct_reasons() {
    let not_configured = diagnose_host_connectivity(HostConnectivityEvidence {
        dns_configured: Some(false),
        dns_resolves: None,
        ..connected_wifi()
    });
    assert_eq!(
        not_configured.status,
        AgentHostConnectivityStatus::DnsUnavailable
    );
    assert!(
        not_configured
            .reasons
            .contains(&AgentHostConnectivityReason::DnsNotConfigured)
    );

    let cannot_resolve = diagnose_host_connectivity(HostConnectivityEvidence {
        dns_resolves: Some(false),
        ..connected_wifi()
    });
    assert_eq!(
        cannot_resolve.status,
        AgentHostConnectivityStatus::DnsUnavailable
    );
    assert!(
        cannot_resolve
            .reasons
            .contains(&AgentHostConnectivityReason::DnsResolutionFailed)
    );
}

#[test]
fn ipv4_only_and_ipv6_only_are_stable_final_states() {
    let ipv4_only = diagnose_host_connectivity(HostConnectivityEvidence {
        ipv6_usable_address: true,
        ipv6_default_route: true,
        ipv6_internet_reachable: Some(false),
        ..connected_wifi()
    });
    assert_eq!(
        ipv4_only.status,
        AgentHostConnectivityStatus::OnlineIpv4Only
    );
    assert!(
        ipv4_only
            .reasons
            .contains(&AgentHostConnectivityReason::Ipv6InternetUnreachable)
    );

    let ipv6_only = diagnose_host_connectivity(HostConnectivityEvidence {
        wireless_present: false,
        wireless_connected: false,
        ethernet_present: true,
        ethernet_connected: true,
        ipv4_usable_address: true,
        ipv4_default_route: true,
        ipv4_internet_reachable: Some(false),
        ipv6_usable_address: true,
        ipv6_default_route: true,
        ipv6_internet_reachable: Some(true),
        dns_configured: Some(true),
        dns_resolves: Some(true),
        captive_portal_suspected: Some(false),
        probe_complete: true,
        ..HostConnectivityEvidence::default()
    });
    assert_eq!(
        ipv6_only.status,
        AgentHostConnectivityStatus::OnlineIpv6Only
    );
    assert!(
        ipv6_only
            .reasons
            .contains(&AgentHostConnectivityReason::Ipv4InternetUnreachable)
    );
}

#[test]
fn captive_portal_takes_precedence_over_transport_reachability() {
    let snapshot = diagnose_host_connectivity(HostConnectivityEvidence {
        captive_portal_suspected: Some(true),
        ..connected_wifi()
    });

    assert_eq!(
        snapshot.status,
        AgentHostConnectivityStatus::CaptivePortalSuspected
    );
    assert!(
        snapshot
            .reasons
            .contains(&AgentHostConnectivityReason::CaptivePortalSuspected)
    );
}

#[test]
fn routed_network_without_external_reachability_is_internet_unreachable() {
    let snapshot = diagnose_host_connectivity(HostConnectivityEvidence {
        ipv4_internet_reachable: Some(false),
        ..connected_wifi()
    });

    assert_eq!(
        snapshot.status,
        AgentHostConnectivityStatus::InternetUnreachable
    );
    assert!(
        snapshot
            .reasons
            .contains(&AgentHostConnectivityReason::Ipv4InternetUnreachable)
    );
}

#[test]
fn incomplete_probe_fails_closed_without_claiming_the_link_is_down() {
    let snapshot = diagnose_host_connectivity(HostConnectivityEvidence::default());

    assert_eq!(snapshot.status, AgentHostConnectivityStatus::Indeterminate);
    assert_eq!(
        snapshot.active_interface_kind,
        AgentNetworkInterfaceKind::Unknown
    );
    assert_eq!(snapshot.link_up, None);
    assert_eq!(
        snapshot.reasons,
        vec![AgentHostConnectivityReason::ProbeUnavailable]
    );
}

#[test]
fn status_and_reasons_follow_the_link_state_they_are_given() {
    let evidence = connected_wifi();
    let mut reasons = connectivity_reasons(evidence, false);
    assert_eq!(reasons, vec![AgentHostConnectivityReason::NoActiveInterface]);
    assert_eq!(
        connectivity_status(evidence, false, &mut reasons),
        AgentHostConnectivityStatus::LinkDisconnected
    );
    assert_eq!(reasons, vec![AgentHostConnectivityReason::NoActiveInterface]);
}
