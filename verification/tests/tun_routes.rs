use chimera_agent::ip::IpAddress;
use chimera_agent::tun_routes::{
    adapter_matches, default_capture_routes_present, required_routes, routes_present,
    tun_activity, tun_device_lookup, ExpectedRoute, TunActivity,
};

fn v4(route: Option<ExpectedRoute>) -> Option<([u8; 4], u8)> {
    match route {
        Some(ExpectedRoute {
            address: IpAddress::V4(octets),
            prefix_len,
        }) => Some((octets, prefix_len)),
        _ => None,
    }
}

fn v6(route: Option<ExpectedRoute>) -> Option<([u16; 8], u8)> {
    match route {
        Some(ExpectedRoute {
            address: IpAddress::V6(segments),
            prefix_len,
        }) => Some((segments, prefix_len)),
        _ => None,
    }
}

#[test]
fn expected_routes_are_canonicalized_before_comparison() {
    assert_eq!(
        v4(ExpectedRoute::parse("198.18.1.9/16")),
        Some(([198, 18, 0, 0], 16))
    );
    assert_eq!(
        v6(ExpectedRoute::parse("8000::1234/1")),
        Some(([0x8000, 0, 0, 0, 0, 0, 0, 0], 1))
    );
    assert!(ExpectedRoute::parse("0.0.0.0/33").is_none());
}

#[test]
fn route_parsing_trims_and_rejects_malformed_text() {
    assert_eq!(
        v4(ExpectedRoute::parse("  10.1.2.3/9 ")),
        Some(([10, 0, 0, 0], 9))
    );
    assert_eq!(
        v4(ExpectedRoute::parse("192.168.255.255/23")),
        Some(([192, 168, 254, 0], 23))
    );
    assert_eq!(v4(ExpectedRoute::parse("1.2.3.4/32")), Some(([1, 2, 3, 4], 32)));
    assert_eq!(v4(ExpectedRoute::parse("1.2.3.4/0")), Some(([0, 0, 0, 0], 0)));
    assert!(ExpectedRoute::parse("1.2.3.4").is_none());
    assert!(ExpectedRoute::parse("1.2.3.4/x").is_none());
    assert!(ExpectedRoute::parse("host/8").is_none());
    assert!(ExpectedRoute::parse("::/129").is_none());
    assert!(ExpectedRoute::parse("1.2.3.4/8/8").is_none());
}

#[test]
fn default_capture_requires_a_complete_route_set() {
    let low = ExpectedRoute::parse("0.0.0.0/1").unwrap();
    let high = ExpectedRoute::parse("128.0.0.0/1").unwrap();
    assert!(!default_capture_routes_present(&[low]));
    assert!(default_capture_routes_present(&[low, high]));

    let default_v4 = ExpectedRoute::parse("0.0.0.0/0").unwrap();
    assert!(default_capture_routes_present(&[default_v4]));

    let low_v6 = ExpectedRoute::parse("::/1").unwrap();
    let high_v6 = ExpectedRoute::parse("8000::/1").unwrap();
    assert!(!default_capture_routes_present(&[high_v6]));
    assert!(default_capture_routes_present(&[high_v6, low_v6]));
}

#[test]
fn configured_routes_must_all_be_observed() {
    let required = required_routes(&["10.0.0.0/8".to_string(), "fd00::/8".to_string()])
        .expect("configured routes");
    let observed = [
        ExpectedRoute::parse("10.9.9.9/8").unwrap(),
        ExpectedRoute::parse("fd12::/8").unwrap(),
    ];
    assert!(routes_present(&required, &observed));
    assert!(!routes_present(&required, &observed[..1]));
    assert!(required_routes(&["10.0.0.0/8".to_string(), "bad".to_string()]).is_none());
    assert!(!routes_present(&[], &observed));
}

#[test]
fn empty_or_missing_device_is_never_claimed_active() {
    assert_eq!(tun_device_lookup(None), None);
    assert_eq!(tun_device_lookup(Some("")), None);
    assert_eq!(tun_device_lookup(Some("   ")), None);
    assert_eq!(tun_activity(None, Some(true)), TunActivity::Unknown);
}

#[test]
fn windows_adapter_enumeration_can_prove_a_missing_device() {
    let device = "__chimera_agent_test_missing_tun_device__";
    let name = tun_device_lookup(Some(device)).expect("device to look for");
    assert_eq!(name, device);
    let found = ["Ethernet", "Wi-Fi", "Meta"]
        .iter()
        .any(|adapter| adapter_matches(adapter, &name));
    assert!(!found);
    assert_eq!(tun_activity(Some(found), Some(true)), TunActivity::Inactive);
}

#[test]
fn present_adapter_is_active_without_auto_route_and_checked_with_it() {
    assert!(adapter_matches("META", "Meta"));
    assert_eq!(tun_device_lookup(Some("  Meta ")), Some("Meta".to_string()));
    assert_eq!(tun_activity(Some(true), Some(false)), TunActivity::Active);
    assert_eq!(tun_activity(Some(true), Some(true)), TunActivity::CheckRoutes);
    assert_eq!(tun_activity(Some(true), None), TunActivity::Unknown);
}

#[test]
fn route_prefixes_are_decimal_bytes_with_an_optional_plus() {
    assert_eq!(v4(ExpectedRoute::parse("10.0.0.0/+8")), Some(([10, 0, 0, 0], 8)));
    assert_eq!(v4(ExpectedRoute::parse("10.0.0.0/008")), Some(([10, 0, 0, 0], 8)));
    assert!(ExpectedRoute::parse("10.0.0.0/256").is_none());
    assert!(ExpectedRoute::parse("10.0.0.0/-8").is_none());
    assert!(ExpectedRoute::parse("10.0.0.0/+").is_none());
    assert!(ExpectedRoute::parse("10.0.0.0/").is_none());
}
