use chimera_agent::corrupt_history::{
    corrupt_history_file_name, corrupt_history_sort_key, decimal_string, AGENT_HISTORY_TIMEOUT_MS,
};

#[test]
fn corrupt_history_names_bind_timestamp_and_nonce() {
    let first = corrupt_history_file_name(1234, [0; 16]);
    let second = corrupt_history_file_name(1234, [1; 16]);

    assert_eq!(
        first,
        "agent-history.corrupt-1234-00000000000000000000000000000000.json"
    );
    assert_eq!(
        second,
        "agent-history.corrupt-1234-01010101010101010101010101010101.json"
    );
    assert_ne!(first, second);
}

#[test]
fn corrupt_history_sort_keys_accept_only_legacy_or_nonce_bound_names() {
    assert_eq!(
        corrupt_history_sort_key("agent-history.corrupt-0007.json"),
        Some((7, 0))
    );
    assert_eq!(
        corrupt_history_sort_key(
            "agent-history.corrupt-1234-01010101010101010101010101010101.json"
        ),
        Some((1234, 0x01010101010101010101010101010101))
    );
    for invalid in [
        "agent-history.corrupt--1.json",
        "agent-history.corrupt-not-a-time.json",
        "agent-history.corrupt-1234-short.json",
        "agent-history.corrupt-1234-ABCDEFABCDEFABCDEFABCDEFABCDEFAB.json",
        "agent-history.corrupt-1234-0000000000000000000000000000000g.json",
        "agent-history.corrupt-1234-00000000000000000000000000000000.extra.json",
    ] {
        assert_eq!(corrupt_history_sort_key(invalid), None, "{invalid}");
    }
}

#[test]
fn generated_names_sort_by_their_instant_and_nonce() {
    let name = corrupt_history_file_name(u64::MAX, [0xab; 16]);
    assert_eq!(
        corrupt_history_sort_key(&name),
        Some((u64::MAX, 0xabababababababababababababababab))
    );
    assert_eq!(
        corrupt_history_sort_key("agent-history.corrupt-18446744073709551616.json"),
        None
    );
    assert_eq!(corrupt_history_sort_key("agent-history.corrupt-.json"), None);
    assert_eq!(corrupt_history_sort_key("agent-history.json"), None);
    assert_eq!(decimal_string(0), "0");
    assert_eq!(decimal_string(90_210), "90210");
}

#[test]
fn history_rpc_budget_covers_corrupt_recovery_and_durable_io() {
    assert!(AGENT_HISTORY_TIMEOUT_MS > 60_000);
}
