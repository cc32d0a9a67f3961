use chimera_agent::digest::material_digest;
use chimera_agent::model::{
    AgentAppliedState, AgentCoreSnapshot, AgentCoreState, AgentHostConnectivitySnapshot,
    AgentHostConnectivityStatus, AgentHostScope, AgentIpFamilyConnectivity,
    AgentNetworkInterfaceKind, AgentPlatformReadinessSnapshot, AgentProcessPrivilegeStatus,
    AgentRoutingMode, AgentRunType, AgentSelectedCore, AgentServiceSnapshot, AgentServiceState,
    AgentSystemDnsVerificationStatus, AgentSystemProxySnapshot, AgentTunPermissionReadiness,
    AgentTunSnapshot, AgentTunVerificationStatus,
};
use chimera_agent::revision::{revision_material, snapshot_revision, RevisionInputs};

fn readiness(
    tun_permission: AgentTunPermissionReadiness,
    system_dns_verification: AgentSystemDnsVerificationStatus,
) -> AgentPlatformReadinessSnapshot {
    AgentPlatformReadinessSnapshot {
        process_privilege: AgentProcessPrivilegeStatus::Standard,
        service_mode_available: Some(false),
        tun_permission,
        tun_verification: if tun_permission == AgentTunPermissionReadiness::NotRequired {
            AgentTunVerificationStatus::NotRequested
        } else {
            AgentTunVerificationStatus::Unavailable
        },
        system_dns_verification,
        reasons: Vec::new(),
    }
}

fn connectivity(status: AgentHostConnectivityStatus) -> AgentHostConnectivitySnapshot {
    AgentHostConnectivitySnapshot {
        status,
        active_interface_kind: AgentNetworkInterfaceKind::Unknown,
        link_up: None,
        ipv4: AgentIpFamilyConnectivity {
            usable_ip: false,
            default_route: false,
            internet_reachable: None,
        },
        ipv6: AgentIpFamilyConnectivity {
            usable_ip: false,
            default_route: false,
            internet_reachable: None,
        },
        dns_configured: None,
        dns_resolves: None,
        captive_portal_suspected: None,
        reasons: Vec::new(),
    }
}

fn running_core() -> AgentCoreSnapshot {
    AgentCoreSnapshot {
        state: AgentCoreState::Running,
        run_type: AgentRunType::Normal,
        selected_core: AgentSelectedCore::Mihomo,
        state_changed_at: 1,
        runtime_config_present: true,
        routing_mode: Some(AgentRoutingMode::Rule),
        observed_routing_mode: Some(AgentRoutingMode::Rule),
        applied_consistency: AgentAppliedState::Consistent,
    }
}

fn proxy() -> AgentSystemProxySnapshot {
    AgentSystemProxySnapshot {
        desired_enabled: false,
        observed_enabled: Some(false),
        observed_host_scope: AgentHostScope::Loopback,
        observed_port: Some(7890),
        expected_mixed_port: 7890,
        matches_expected_endpoint: Some(true),
    }
}

#[test]
fn connectivity_changes_are_bound_into_snapshot_revision() {
    let core = running_core();
    let service = AgentServiceSnapshot {
        desired_enabled: false,
        state: AgentServiceState::Stopped,
        ipc_connected: false,
        runtime_compatible: None,
    };
    let proxy = proxy();
    let tun = AgentTunSnapshot {
        desired_enabled: false,
        generated_runtime_enabled: Some(false),
        observed_enabled: Some(false),
        applied_consistency: AgentAppliedState::Consistent,
    };
    let online = connectivity(AgentHostConnectivityStatus::OnlineDualStack);
    let offline = connectivity(AgentHostConnectivityStatus::InternetUnreachable);
    let readiness = readiness(
        AgentTunPermissionReadiness::NotRequired,
        AgentSystemDnsVerificationStatus::NotRequired,
    );

    assert_ne!(
        snapshot_revision(&core, &service, &proxy, &tun, &online, &readiness),
        snapshot_revision(&core, &service, &proxy, &tun, &offline, &readiness)
    );
}

#[test]
fn readiness_changes_are_bound_into_snapshot_revision() {
    let core = running_core();
    let service = AgentServiceSnapshot {
        desired_enabled: false,
        state: AgentServiceState::NotInstalled,
        ipc_connected: false,
        runtime_compatible: None,
    };
    let proxy = proxy();
    let tun = AgentTunSnapshot {
        desired_enabled: true,
        generated_runtime_enabled: Some(true),
        observed_enabled: Some(true),
        applied_consistency: AgentAppliedState::Consistent,
    };
    let connectivity = connectivity(AgentHostConnectivityStatus::OnlineDualStack);
    let ready = readiness(
        AgentTunPermissionReadiness::Satisfied,
        AgentSystemDnsVerificationStatus::Verified,
    );
    let required = readiness(
        AgentTunPermissionReadiness::Required,
        AgentSystemDnsVerificationStatus::Verified,
    );

    assert_ne!(
        snapshot_revision(&core, &service, &proxy, &tun, &connectivity, &ready),
        snapshot_revision(&core, &service, &proxy, &tun, &connectivity, &required)
    );
}

#[test]
fn revision_is_a_deterministic_lowercase_sha256() {
    let core = running_core();
    let service = AgentServiceSnapshot {
        desired_enabled: false,
        state: AgentServiceState::Stopped,
        ipc_connected: false,
        runtime_compatible: None,
    };
    let tun = AgentTunSnapshot {
        desired_enabled: false,
        generated_runtime_enabled: None,
        observed_enabled: None,
        applied_consistency: AgentAppliedState::Unknown,
    };
    let online = connectivity(AgentHostConnectivityStatus::OnlineIpv4Only);
    let readiness = readiness(
        AgentTunPermissionReadiness::NotRequired,
        AgentSystemDnsVerificationStatus::NotRequired,
    );
    let first = snapshot_revision(&core, &service, &proxy(), &tun, &online, &readiness);
    let second = snapshot_revision(&core, &service, &proxy(), &tun, &online, &readiness);
    assert_eq!(first, second);
    assert_eq!(first.len(), 64);
    assert!(first.chars().all(|c| c.is_ascii_digit() || ('a'..='f').contains(&c)));
}

#[test]
fn material_digest_is_the_sha256_of_the_bytes() {
    assert_eq!(
        material_digest(b"abc"),
        "ba7816bf8f01cfea414140de5dae2223b00361a396177a9cb410ff61f20015ad"
    );
    assert_eq!(
        material_digest(b""),
        "e3b0c44298fc1c149afbf4c8996fb92427ae41e4649b934ca495991b7852b855"
    );
}

fn sample_inputs() -> RevisionInputs {
    RevisionInputs {
        core_state: AgentCoreState::Running,
        run_type: AgentRunType::Service,
        state_changed_at: -42,
        routing_mode: Some(AgentRoutingMode::Global),
        observed_routing_mode: None,
        service_desired_enabled: true,
        service_state: AgentServiceState::NotInstalled,
        proxy_observed_enabled: Some(false),
        proxy_observed_port: Some(7890),
        tun_desired_enabled: false,
        tun_generated_runtime_enabled: None,
        connectivity_status: AgentHostConnectivityStatus::OnlineIpv4Only,
        active_interface_kind: AgentNetworkInterfaceKind::NoInterface,
        link_up: Some(true),
        ipv4_usable_ip: true,
        ipv6_usable_ip: false,
        dns_resolves: None,
        captive_portal_suspected: Some(false),
        process_privilege: AgentProcessPrivilegeStatus::Elevated,
        tun_permission: AgentTunPermissionReadiness::ServiceAlternativeAvailable,
        tun_verification: AgentTunVerificationStatus::NotRequested,
        system_dns_verification: AgentSystemDnsVerificationStatus::ResolutionFailed,
    }
}

#[test]
fn revision_material_joins_every_input_with_colons() {
    assert_eq!(
        revision_material(sample_inputs()),
        "1:Running:Service:-42:Some(Global):None:true:NotInstalled:Some(false):Some(7890):\
         false:None:OnlineIpv4Only:None:Some(true):true:false:None:Some(false):Elevated:\
         ServiceAlternativeAvailable:NotRequested:ResolutionFailed"
    );
}

#[test]
fn revision_is_the_digest_of_its_material() {
    let core = running_core();
    let service = AgentServiceSnapshot {
        desired_enabled: false,
        state: AgentServiceState::Stopped,
        ipc_connected: false,
        runtime_compatible: None,
    };
    let tun = AgentTunSnapshot {
        desired_enabled: false,
        generated_runtime_enabled: Some(false),
        observed_enabled: Some(false),
        applied_consistency: AgentAppliedState::Consistent,
    };
    let online = connectivity(AgentHostConnectivityStatus::OnlineDualStack);
    let readiness = readiness(
        AgentTunPermissionReadiness::NotRequired,
        AgentSystemDnsVerificationStatus::NotRequired,
    );
    let material = "1:Running:Normal:1:Some(Rule):Some(Rule):false:Stopped:Some(false):Some(7890):\
                    false:Some(false):OnlineDualStack:Unknown:None:false:false:None:None:Standard:\
                    NotRequired:NotRequested:NotRequired";
    assert_eq!(
        snapshot_revision(&core, &service, &proxy(), &tun, &online, &readiness),
        material_digest(material.as_bytes())
    );
}
