use chimera_agent::core_config::{
    loopback_controller_url, project_core_config, ClashRuntimeConfig, RuntimeTun,
};
use chimera_agent::model::AgentRoutingMode;

#[test]
fn controller_probe_accepts_only_loopback_socket_addresses() {
    assert!(loopback_controller_url("127.0.0.1:9090").is_ok());
    assert!(loopback_controller_url("[::1]:9090").is_ok());
    assert!(loopback_controller_url("192.168.1.2:9090").is_err());
    assert!(loopback_controller_url("example.com:9090").is_err());
}

#[test]
fn controller_url_points_at_the_configuration_endpoint() {
    let url = loopback_controller_url("127.0.0.1:9090").expect("loopback controller");
    assert_eq!(url.as_str(), "http://127.0.0.1:9090/configs");
    assert!(loopback_controller_url("127.0.0.1").is_err());
}

#[test]
fn core_projection_keeps_tun_and_routing_observation_together() {
    let observed = project_core_config(ClashRuntimeConfig {
        mode: Some("rule".into()),
        tun: Some(RuntimeTun {
            enable: true,
            device: "Meta".into(),
            auto_route: true,
            route_address: vec!["0.0.0.0/1".into()],
            inet4_route_address: vec!["128.0.0.0/1".into()],
            inet6_route_address: vec!["::/1".into(), "0.0.0.0/1".into()],
            ..Default::default()
        }),
        ..Default::default()
    });

    assert_eq!(observed.routing_mode, Some(AgentRoutingMode::Rule));
    assert_eq!(observed.tun_enabled, Some(true));
    assert_eq!(observed.tun_device.as_deref(), Some("Meta"));
    assert_eq!(observed.tun_auto_route, Some(true));
    assert_eq!(
        observed.tun_route_addresses,
        vec!["0.0.0.0/1", "128.0.0.0/1", "::/1"]
    );
}

#[test]
fn core_projection_preserves_unknown_tun_state() {
    let observed = project_core_config(ClashRuntimeConfig {
        mode: Some("invalid".into()),
        ..Default::default()
    });

    assert_eq!(observed.routing_mode, None);
    assert_eq!(observed.tun_enabled, None);
    assert_eq!(observed.tun_device, None);
    assert_eq!(observed.tun_auto_route, None);
    assert!(observed.tun_route_addresses.is_empty());
}

#[test]
fn blank_tun_device_is_not_reported() {
    let observed = project_core_config(ClashRuntimeConfig {
        mode: None,
        tun: Some(RuntimeTun {
            device: "   ".into(),
            route_address: vec!["b".into(), "a".into(), "b".into()],
            ..Default::default()
        }),
    });
    assert_eq!(observed.routing_mode, None);
    assert_eq!(observed.tun_enabled, Some(false));
    assert_eq!(observed.tun_device, None);
    assert_eq!(observed.tun_route_addresses, vec!["a", "b"]);
}
