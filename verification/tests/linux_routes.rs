use chimera_agent::host_connectivity::diagnose_host_connectivity;
use chimera_agent::ip::IpAddress;
use chimera_agent::linux_routes::{
    collect_interface_rows, merge_linux_evidence, route_dump_request, route_dump_request_in,
    usable_ipv4, usable_ipv6, InterfaceEntry, LinuxConnectivityEvidenceError, RouteDumpParser,
    SanitizedAddressFamily, SanitizedInterfaceRow, SanitizedRouteRow, MAX_INTERFACE_ROWS,
    MAX_ROUTE_DUMP_BYTES, ROUTE_DUMP_SEQUENCE,
};
use chimera_agent::model::AgentHostConnectivityStatus;

fn write_u16(bytes: &mut [u8], offset: usize, value: u16) {
    bytes[offset..offset + 2].copy_from_slice(&value.to_ne_bytes());
}

fn write_u32(bytes: &mut [u8], offset: usize, value: u32) {
    bytes[offset..offset + 4].copy_from_slice(&value.to_ne_bytes());
}

fn route_message(sequence: u32, family: u8, destination_len: u8, table: u8, oif: u32) -> Vec<u8> {
    let attribute_len = 8_usize;
    let message_len = 16 + 12 + attribute_len;
    let mut message = vec![0_u8; message_len];
    write_u32(&mut message, 0, message_len as u32);
    write_u16(&mut message, 4, 24);
    write_u32(&mut message, 8, sequence);
    message[16] = family;
    message[17] = destination_len;
    message[20] = table;
    message[23] = 1;
    write_u16(&mut message, 28, attribute_len as u16);
    write_u16(&mut message, 30, 4);
    write_u32(&mut message, 32, oif);
    message
}

fn done_message(sequence: u32) -> Vec<u8> {
    let mut message = vec![0_u8; 16];
    write_u32(&mut message, 0, 16);
    write_u16(&mut message, 4, 3);
    write_u32(&mut message, 8, sequence);
    message
}

fn error_message(sequence: u32, error: i32) -> Vec<u8> {
    let mut message = vec![0_u8; 20];
    write_u32(&mut message, 0, 20);
    write_u16(&mut message, 4, 2);
    write_u32(&mut message, 8, sequence);
    message[16..20].copy_from_slice(&error.to_ne_bytes());
    message
}

fn interrupted_message(sequence: u32) -> Vec<u8> {
    let mut message = done_message(sequence);
    write_u16(&mut message, 6, 0x0010);
    message
}

fn overrun_message(sequence: u32) -> Vec<u8> {
    let mut message = vec![0_u8; 16];
    write_u32(&mut message, 0, 16);
    write_u16(&mut message, 4, 4);
    write_u32(&mut message, 8, sequence);
    message
}

#[test]
fn sanitized_rows_bind_default_routes_only_to_active_interfaces() {
    let evidence = merge_linux_evidence(
        &[
            SanitizedInterfaceRow {
                interface_index: 7,
                up: true,
                family: Some(SanitizedAddressFamily::Ipv4),
                usable_address: true,
            },
            SanitizedInterfaceRow {
                interface_index: 8,
                up: false,
                family: Some(SanitizedAddressFamily::Ipv6),
                usable_address: true,
            },
        ],
        &[
            SanitizedRouteRow {
                family: SanitizedAddressFamily::Ipv4,
                output_interface: 7,
            },
            SanitizedRouteRow {
                family: SanitizedAddressFamily::Ipv6,
                output_interface: 8,
            },
        ],
    )
    .expect("sanitized evidence");

    assert!(evidence.other_interface_connected);
    assert!(evidence.ipv4_usable_address);
    assert!(evidence.ipv4_default_route);
    assert!(!evidence.ipv6_usable_address);
    assert!(!evidence.ipv6_default_route);
    assert_eq!(evidence.dns_configured, None);
    assert_eq!(evidence.dns_resolves, None);
    assert_eq!(evidence.ipv4_internet_reachable, None);
    assert_eq!(evidence.ipv6_internet_reachable, None);
    assert_eq!(evidence.captive_portal_suspected, None);
    assert!(evidence.probe_complete);
    assert_eq!(
        diagnose_host_connectivity(evidence).status,
        AgentHostConnectivityStatus::Indeterminate
    );
}

#[test]
fn route_parser_accepts_only_main_table_default_routes_and_active_output_indices() {
    let mut parser = RouteDumpParser::new(ROUTE_DUMP_SEQUENCE);
    let mut chunk = route_message(ROUTE_DUMP_SEQUENCE, 2, 0, 254, 7);
    chunk.extend(route_message(ROUTE_DUMP_SEQUENCE, 10, 0, 254, 8));
    chunk.extend(route_message(ROUTE_DUMP_SEQUENCE, 2, 24, 254, 9));
    chunk.extend(route_message(ROUTE_DUMP_SEQUENCE, 2, 0, 100, 10));
    chunk.extend(done_message(ROUTE_DUMP_SEQUENCE));

    assert!(parser.push_chunk(&chunk).expect("parse route dump"));
    assert_eq!(
        parser.finish().expect("complete route dump"),
        vec![
            SanitizedRouteRow {
                family: SanitizedAddressFamily::Ipv4,
                output_interface: 7,
            },
            SanitizedRouteRow {
                family: SanitizedAddressFamily::Ipv6,
                output_interface: 8,
            },
        ]
    );
}

#[test]
fn route_parser_rejects_malformed_kernel_errors_and_budget_overflow() {
    let mut malformed = RouteDumpParser::new(ROUTE_DUMP_SEQUENCE);
    assert_eq!(
        malformed.push_chunk(&[15, 0, 0, 0]),
        Err(LinuxConnectivityEvidenceError::Malformed)
    );

    let mut rejected = RouteDumpParser::new(ROUTE_DUMP_SEQUENCE);
    assert_eq!(
        rejected.push_chunk(&error_message(ROUTE_DUMP_SEQUENCE, -1)),
        Err(LinuxConnectivityEvidenceError::KernelRejected)
    );

    let mut interrupted = RouteDumpParser::new(ROUTE_DUMP_SEQUENCE);
    assert_eq!(
        interrupted.push_chunk(&interrupted_message(ROUTE_DUMP_SEQUENCE)),
        Err(LinuxConnectivityEvidenceError::Incomplete)
    );

    let mut overrun = RouteDumpParser::new(ROUTE_DUMP_SEQUENCE);
    assert_eq!(
        overrun.push_chunk(&overrun_message(ROUTE_DUMP_SEQUENCE)),
        Err(LinuxConnectivityEvidenceError::Incomplete)
    );

    let mut oversized = RouteDumpParser::new(ROUTE_DUMP_SEQUENCE);
    assert_eq!(
        oversized.push_chunk(&vec![0; MAX_ROUTE_DUMP_BYTES + 1]),
        Err(LinuxConnectivityEvidenceError::BudgetExceeded)
    );
}

#[test]
fn route_request_is_fixed_bounded_and_read_only() {
    let request = route_dump_request(ROUTE_DUMP_SEQUENCE);
    assert_eq!(request.len(), 28);
    assert_eq!(u16::from_ne_bytes([request[4], request[5]]), 26);
    assert_eq!(u16::from_ne_bytes([request[6], request[7]]), 0x0301);
    assert_eq!(
        u32::from_ne_bytes(request[8..12].try_into().unwrap()),
        ROUTE_DUMP_SEQUENCE
    );
    assert_eq!(request[16], 0);
    assert!(request[17..].iter().all(|byte| *byte == 0));
}

#[test]
fn route_request_byte_orders_are_exact() {
    let little = route_dump_request_in(0x0102_0304, true);
    assert_eq!(&little[0..12], &[28, 0, 0, 0, 26, 0, 1, 3, 4, 3, 2, 1]);
    let big = route_dump_request_in(0x0102_0304, false);
    assert_eq!(&big[0..12], &[0, 0, 0, 28, 0, 26, 3, 1, 1, 2, 3, 4]);
    assert!(little[12..].iter().chain(big[12..].iter()).all(|byte| *byte == 0));
}

#[test]
fn duplicate_routes_are_kept_once_and_a_finished_dump_refuses_more() {
    let mut parser = RouteDumpParser::new(ROUTE_DUMP_SEQUENCE);
    let mut chunk = route_message(ROUTE_DUMP_SEQUENCE, 2, 0, 254, 7);
    chunk.extend(route_message(ROUTE_DUMP_SEQUENCE, 2, 0, 254, 7));
    assert_eq!(parser.push_chunk(&chunk), Ok(false));
    assert_eq!(parser.push_chunk(&done_message(ROUTE_DUMP_SEQUENCE)), Ok(true));
    assert_eq!(
        parser.push_chunk(&done_message(ROUTE_DUMP_SEQUENCE)),
        Err(LinuxConnectivityEvidenceError::Malformed)
    );
    assert_eq!(
        parser.finish(),
        Ok(vec![SanitizedRouteRow {
            family: SanitizedAddressFamily::Ipv4,
            output_interface: 7,
        }])
    );
}

#[test]
fn unfinished_dump_and_foreign_sequence_are_refused() {
    let parser = RouteDumpParser::new(ROUTE_DUMP_SEQUENCE);
    assert_eq!(parser.finish(), Err(LinuxConnectivityEvidenceError::Incomplete));

    let mut foreign = RouteDumpParser::new(ROUTE_DUMP_SEQUENCE);
    assert_eq!(
        foreign.push_chunk(&done_message(ROUTE_DUMP_SEQUENCE + 1)),
        Err(LinuxConnectivityEvidenceError::Malformed)
    );

    let mut accepted = RouteDumpParser::new(ROUTE_DUMP_SEQUENCE);
    assert_eq!(accepted.push_chunk(&error_message(ROUTE_DUMP_SEQUENCE, 0)), Ok(false));
}

#[test]
fn interface_rows_with_index_zero_or_over_budget_are_refused() {
    let zero = SanitizedInterfaceRow {
        interface_index: 0,
        up: true,
        family: None,
        usable_address: false,
    };
    assert_eq!(
        merge_linux_evidence(&[zero], &[]),
        Err(LinuxConnectivityEvidenceError::Malformed)
    );
    let row = SanitizedInterfaceRow {
        interface_index: 1,
        up: false,
        family: None,
        usable_address: false,
    };
    let rows = vec![row; MAX_INTERFACE_ROWS + 1];
    assert_eq!(
        merge_linux_evidence(&rows, &[]),
        Err(LinuxConnectivityEvidenceError::BudgetExceeded)
    );
}

#[test]
fn usable_address_filter_rejects_loopback_link_local_and_multicast() {
    assert!(!usable_ipv4([127, 0, 0, 1]));
    assert!(!usable_ipv4([169, 254, 1, 1]));
    assert!(!usable_ipv4([224, 0, 0, 1]));
    assert!(usable_ipv4([10, 0, 0, 1]));
    assert!(!usable_ipv6([0, 0, 0, 0, 0, 0, 0, 1]));
    assert!(!usable_ipv6([0xfe80, 0, 0, 0, 0, 0, 0, 1]));
    assert!(!usable_ipv6([0xff02, 0, 0, 0, 0, 0, 0, 1]));
    assert!(usable_ipv6([0xfd00, 0, 0, 0, 0, 0, 0, 1]));
}

fn entry(index: Option<u32>, address: Option<IpAddress>) -> InterfaceEntry {
    InterfaceEntry {
        loopback: false,
        index,
        up: true,
        running: true,
        address,
    }
}

#[test]
fn interface_entries_become_bounded_rows_without_raw_identifiers() {
    let loopback = InterfaceEntry {
        loopback: true,
        index: None,
        up: true,
        running: true,
        address: Some(IpAddress::V4([127, 0, 0, 1])),
    };
    let rows = collect_interface_rows(&[
        loopback,
        entry(Some(3), Some(IpAddress::V4([192, 168, 1, 20]))),
        entry(Some(3), Some(IpAddress::V6([0xfe80, 0, 0, 0, 0, 0, 0, 1]))),
        entry(Some(4), None),
    ])
    .expect("interface rows");
    assert_eq!(
        rows,
        vec![
            SanitizedInterfaceRow {
                interface_index: 3,
                up: true,
                family: Some(SanitizedAddressFamily::Ipv4),
                usable_address: true,
            },
            SanitizedInterfaceRow {
                interface_index: 3,
                up: true,
                family: Some(SanitizedAddressFamily::Ipv6),
                usable_address: false,
            },
            SanitizedInterfaceRow {
                interface_index: 4,
                up: true,
                family: None,
                usable_address: false,
            },
        ]
    );

    let mut stopped = entry(Some(5), None);
    stopped.running = false;
    assert!(!collect_interface_rows(&[stopped]).expect("row")[0].up);
    assert_eq!(
        collect_interface_rows(&[entry(None, None)]),
        Err(LinuxConnectivityEvidenceError::NativeUnavailable)
    );
    assert_eq!(
        collect_interface_rows(&[entry(Some(0), None)]),
        Err(LinuxConnectivityEvidenceError::Malformed)
    );
    let many = vec![loopback; MAX_INTERFACE_ROWS + 1];
    assert_eq!(
        collect_interface_rows(&many),
        Err(LinuxConnectivityEvidenceError::BudgetExceeded)
    );
    assert_eq!(collect_interface_rows(&many[..MAX_INTERFACE_ROWS]), Ok(Vec::new()));
}
