use chimera_agent::model::AgentRoutingMode;
use chimera_agent::responses::{
    core_observation, health_payload_matches, response_admissible, BoundedBody,
    MAX_CORE_CONFIG_RESPONSE_BYTES, MAX_HEALTH_RESPONSE_BYTES,
};

#[test]
fn oversized_or_failed_responses_are_not_read() {
    assert!(response_admissible(true, None, MAX_HEALTH_RESPONSE_BYTES));
    assert!(response_admissible(true, Some(256), MAX_HEALTH_RESPONSE_BYTES));
    assert!(!response_admissible(true, Some(257), MAX_HEALTH_RESPONSE_BYTES));
    assert!(!response_admissible(false, Some(2), MAX_HEALTH_RESPONSE_BYTES));
}

#[test]
fn chunked_bodies_stop_at_their_limit() {
    let mut body = BoundedBody::new(MAX_CORE_CONFIG_RESPONSE_BYTES);
    assert!(body.push(b"{\"mode\":"));
    assert!(body.push(b"\"rule\"}"));
    assert_eq!(body.bytes, b"{\"mode\":\"rule\"}".to_vec());

    let mut oversized = BoundedBody::new(MAX_CORE_CONFIG_RESPONSE_BYTES);
    assert!(!oversized.push(&vec![b' '; MAX_CORE_CONFIG_RESPONSE_BYTES + 1]));
    assert!(oversized.bytes.is_empty());
    assert!(oversized.push(&vec![b' '; MAX_CORE_CONFIG_RESPONSE_BYTES]));
    assert!(!oversized.push(b" "));
}

#[test]
fn core_configuration_needs_a_known_mode_and_keeps_the_tun_switch() {
    let observed = core_observation(Some("Rule"), Some(Some(true))).expect("known mode");
    assert_eq!(observed.routing_mode, AgentRoutingMode::Rule);
    assert_eq!(observed.tun_enabled, Some(true));
    let without_tun = core_observation(Some("global"), None).expect("known mode");
    assert_eq!(without_tun.tun_enabled, None);
    assert!(core_observation(Some("unknown"), Some(Some(true))).is_err());
    assert!(core_observation(None, None).is_err());
}

#[test]
fn health_requires_ok_status_and_the_expected_schema() {
    assert!(health_payload_matches("ok", 1, 1));
    assert!(!health_payload_matches("ok", 2, 1));
    assert!(!health_payload_matches("OK", 1, 1));
}
