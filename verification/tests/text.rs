use chimera_agent::history::{deduplicate_codes, is_valid_history_timestamp};
use chimera_agent::intent::{matches_any, normalize, resolve_closed_intent};
use chimera_agent::ip::{address_is_loopback, same_ip, IpAddress};
use chimera_agent::model::{AgentFindingCode, AgentIntent, AgentOsFamily};
use chimera_agent::text::{
    append_chars, chars_are_blank, chars_of, contains_chars, str_equal, string_of, to_ascii_lowercase,
    trim_chars,
};

#[test]
fn trimming_and_slicing_follow_str_trim() {
    let chars = chars_of("  \tMeta 1\u{3000}\n");
    assert_eq!(trim_chars(&chars).into_iter().collect::<String>(), "Meta 1");
    assert!(trim_chars(&chars_of(" \n\t")).is_empty());
    assert_eq!(string_of(&chars_of("0.0.0.0/1"), 0, 7), "0.0.0.0");
    let mut text = String::from("http://");
    append_chars(&mut text, "127.0.0.1:9090");
    assert_eq!(text, "http://127.0.0.1:9090");
}

#[test]
fn character_helpers_compare_and_search_exactly() {
    assert!(str_equal("abc", "abc"));
    assert!(!str_equal("abc", "abd"));
    assert!(chars_are_blank(&chars_of(" \u{a0}\t")));
    assert!(!chars_are_blank(&chars_of(" x ")));
    let lower = to_ascii_lowercase(&chars_of("BearerToken Ä"));
    assert_eq!(lower.iter().collect::<String>(), "bearertoken Ä");
    assert!(contains_chars(&lower, &chars_of("token")));
    assert!(!contains_chars(&lower, &chars_of("secret")));
}

#[test]
fn intent_text_is_normalized_before_matching() {
    assert_eq!(normalize("Use GLOBAL mode!"), "useglobalmode");
    assert!(matches_any("useglobalmode", &["globalmode"]));
    assert!(!matches_any("useglobalmode", &["direct"]));
    assert_eq!(
        resolve_closed_intent(&normalize("Use global mode")),
        Some(AgentIntent::SetRoutingMode {
            mode: chimera_agent::model::AgentRoutingMode::Global
        })
    );
}

#[test]
fn addresses_compare_by_value_and_loopback_is_closed() {
    assert!(same_ip(&IpAddress::V4([127, 0, 0, 1]), &IpAddress::V4([127, 0, 0, 1])));
    assert!(!same_ip(&IpAddress::V4([127, 0, 0, 1]), &IpAddress::V4([127, 0, 0, 2])));
    assert!(!same_ip(
        &IpAddress::V4([0, 0, 0, 0]),
        &IpAddress::V6([0, 0, 0, 0, 0, 0, 0, 0])
    ));
    assert!(address_is_loopback(&IpAddress::V4([127, 9, 9, 9])));
    assert!(address_is_loopback(&IpAddress::V6([0, 0, 0, 0, 0, 0, 0, 1])));
    assert!(!address_is_loopback(&IpAddress::V6([0, 0, 0, 0, 0, 0, 1, 1])));
    assert_eq!(AgentOsFamily::from_name("linux"), AgentOsFamily::Linux);
    assert_eq!(AgentOsFamily::from_name("plan9"), AgentOsFamily::Unknown);
}

#[test]
fn history_codes_keep_first_occurrences_and_timestamps_are_bounded() {
    let mut codes = vec![
        AgentFindingCode::WeakControllerSecret,
        AgentFindingCode::HostIpv4Only,
        AgentFindingCode::WeakControllerSecret,
    ];
    deduplicate_codes(&mut codes);
    assert_eq!(
        codes,
        vec![AgentFindingCode::WeakControllerSecret, AgentFindingCode::HostIpv4Only]
    );
    assert!(is_valid_history_timestamp(0));
    assert!(is_valid_history_timestamp(1_700_000_000_000));
    assert!(!is_valid_history_timestamp(-1));
    assert!(!is_valid_history_timestamp(i64::MAX));
}

#[test]
fn history_timestamps_end_at_the_last_calendar_millisecond() {
    assert!(is_valid_history_timestamp(8_210_266_876_799_999));
    assert!(!is_valid_history_timestamp(8_210_266_876_800_000));
    assert!(is_valid_history_timestamp(1));
}
