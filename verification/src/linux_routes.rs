//! Host connectivity evidence on Linux: the interface and route rows read from the kernel,
//! reduced to what the diagnosis needs, and the parser of a netlink route dump.
//!
//! Netlink integers are in the byte order of the machine; the parser is told which one it is.
use vstd::prelude::*;

use crate::host_connectivity::HostConnectivityEvidence;
use crate::ip::{IpAddress, IpAddressView};

verus! {

pub const MAX_INTERFACE_ROWS: usize = 512;

pub const MAX_ROUTE_MESSAGES: usize = 512;

pub const MAX_ROUTE_DUMP_BYTES: usize = 128 * 1024;

pub const ROUTE_DUMP_SEQUENCE: u32 = 0x4348_4d52;

pub const NETLINK_HEADER_LEN: usize = 16;

pub const ROUTE_MESSAGE_LEN: usize = 12;

pub const ROUTE_ATTRIBUTE_HEADER_LEN: usize = 4;

pub const NLMSG_NOOP: u16 = 1;

pub const NLMSG_ERROR: u16 = 2;

pub const NLMSG_DONE: u16 = 3;

pub const NLMSG_OVERRUN: u16 = 4;

pub const NLM_F_DUMP_INTR: u16 = 0x0010;

pub const RTM_NEWROUTE: u16 = 24;

pub const RTM_GETROUTE: u16 = 26;

pub const NLM_F_REQUEST: u16 = 0x0001;

pub const NLM_F_DUMP: u16 = 0x0300;

pub const AF_UNSPEC: u8 = 0;

pub const AF_INET: u8 = 2;

pub const AF_INET6: u8 = 10;

pub const RTN_UNICAST: u8 = 1;

pub const RT_TABLE_MAIN: u32 = 254;

pub const RTA_OIF: u16 = 4;

pub const RTA_TABLE: u16 = 15;

pub const NLA_TYPE_MASK: u16 = 0x3fff;

#[derive(Debug, Clone, Copy, PartialEq, Eq, Structural)]
pub enum SanitizedAddressFamily {
    Ipv4,
    Ipv6,
}

/// One interface address row: the interface, whether it is up, and whether the address is a
/// usable one of its family.
#[derive(Debug, Clone, Copy, PartialEq, Eq, Structural)]
pub struct SanitizedInterfaceRow {
    pub interface_index: u32,
    pub up: bool,
    pub family: Option<SanitizedAddressFamily>,
    pub usable_address: bool,
}

/// One default route of the main table: its family and output interface.
#[derive(Debug, Clone, Copy, PartialEq, Eq, Structural)]
pub struct SanitizedRouteRow {
    pub family: SanitizedAddressFamily,
    pub output_interface: u32,
}

#[derive(Debug, Clone, Copy, PartialEq, Eq, Structural)]
pub enum LinuxConnectivityEvidenceError {
    BudgetExceeded,
    Incomplete,
    KernelRejected,
    Malformed,
    NativeUnavailable,
}

/// Whether an interface is up according to some row.
pub open spec fn interface_up(rows: Seq<SanitizedInterfaceRow>, index: u32) -> bool {
    exists|i: int| 0 <= i < rows.len() && (#[trigger] rows[i]).up && rows[i].interface_index == index
}

/// Whether an up interface has a usable address of the family.
pub open spec fn usable_address(rows: Seq<SanitizedInterfaceRow>, family: SanitizedAddressFamily) -> bool {
    exists|i: int|
        0 <= i < rows.len() && (#[trigger] rows[i]).up && rows[i].family == Some(family)
            && rows[i].usable_address
}

/// Whether a default route of the family leaves through an up interface.
pub open spec fn default_route(
    rows: Seq<SanitizedInterfaceRow>,
    routes: Seq<SanitizedRouteRow>,
    family: SanitizedAddressFamily,
) -> bool {
    exists|i: int|
        0 <= i < routes.len() && (#[trigger] routes[i]).family == family
            && routes[i].output_interface != 0 && interface_up(rows, routes[i].output_interface)
}

/// The evidence that the rows give: links, addresses and routes are known; DNS, reachability and
/// captive portals are left unknown for later probes.
pub open spec fn merged_evidence(
    rows: Seq<SanitizedInterfaceRow>,
    routes: Seq<SanitizedRouteRow>,
) -> Result<HostConnectivityEvidence, LinuxConnectivityEvidenceError> {
    if rows.len() > MAX_INTERFACE_ROWS || routes.len() > MAX_ROUTE_MESSAGES {
        Err(LinuxConnectivityEvidenceError::BudgetExceeded)
    } else if exists|i: int| 0 <= i < rows.len() && (#[trigger] rows[i]).interface_index == 0 {
        Err(LinuxConnectivityEvidenceError::Malformed)
    } else {
        Ok(
            HostConnectivityEvidence {
                wireless_present: false,
                wireless_connected: false,
                ethernet_present: false,
                ethernet_connected: false,
                other_interface_connected: exists|i: int| 0 <= i < rows.len() && (#[trigger] rows[i]).up,
                ipv4_usable_address: usable_address(rows, SanitizedAddressFamily::Ipv4),
                ipv4_default_route: default_route(rows, routes, SanitizedAddressFamily::Ipv4),
                ipv4_internet_reachable: None,
                ipv6_usable_address: usable_address(rows, SanitizedAddressFamily::Ipv6),
                ipv6_default_route: default_route(rows, routes, SanitizedAddressFamily::Ipv6),
                ipv6_internet_reachable: None,
                dns_configured: None,
                dns_resolves: None,
                captive_portal_suspected: None,
                probe_complete: true,
            },
        )
    }
}

fn route_leaves_through_up_interface(
    rows: &[SanitizedInterfaceRow],
    routes: &[SanitizedRouteRow],
    family: SanitizedAddressFamily,
) -> (found: bool)
    ensures
        found == default_route(rows@, routes@, family),
{
    let mut i: usize = 0;
    while i < routes.len()
        invariant
            i <= routes@.len(),
            forall|k: int|
                0 <= k < i ==> !((#[trigger] routes@[k]).family == family
                    && routes@[k].output_interface != 0 && interface_up(
                    rows@,
                    routes@[k].output_interface,
                )),
        decreases routes@.len() - i,
    {
        let route = routes[i];
        if route.family == family && route.output_interface != 0 {
            let mut j: usize = 0;
            while j < rows.len()
                invariant
                    j <= rows@.len(),
                    i < routes@.len(),
                    route == routes@[i as int],
                    route.family == family,
                    route.output_interface != 0,
                    forall|k: int|
                        0 <= k < j ==> !((#[trigger] rows@[k]).up && rows@[k].interface_index
                            == route.output_interface),
                decreases rows@.len() - j,
            {
                if rows[j].up && rows[j].interface_index == route.output_interface {
                    assert(interface_up(rows@, route.output_interface));
                    assert(routes@[i as int] == route);
                    return true;
                }
                j = j + 1;
            }
        }
        i = i + 1;
    }
    false
}

/// Merges the interface and route rows into connectivity evidence.
pub fn merge_linux_evidence(
    interface_rows: &[SanitizedInterfaceRow],
    route_rows: &[SanitizedRouteRow],
) -> (result: Result<HostConnectivityEvidence, LinuxConnectivityEvidenceError>)
    ensures
        result == merged_evidence(interface_rows@, route_rows@),
{
    if interface_rows.len() > MAX_INTERFACE_ROWS || route_rows.len() > MAX_ROUTE_MESSAGES {
        return Err(LinuxConnectivityEvidenceError::BudgetExceeded);
    }
    let mut any_up = false;
    let mut ipv4_usable_address = false;
    let mut ipv6_usable_address = false;
    let mut i: usize = 0;
    while i < interface_rows.len()
        invariant
            i <= interface_rows@.len(),
            interface_rows@.len() <= MAX_INTERFACE_ROWS,
            route_rows@.len() <= MAX_ROUTE_MESSAGES,
            forall|k: int| 0 <= k < i ==> (#[trigger] interface_rows@[k]).interface_index != 0,
            any_up == exists|k: int| 0 <= k < i && (#[trigger] interface_rows@[k]).up,
            ipv4_usable_address == exists|k: int|
                0 <= k < i && (#[trigger] interface_rows@[k]).up && interface_rows@[k].family == Some(
                    SanitizedAddressFamily::Ipv4,
                ) && interface_rows@[k].usable_address,
            ipv6_usable_address == exists|k: int|
                0 <= k < i && (#[trigger] interface_rows@[k]).up && interface_rows@[k].family == Some(
                    SanitizedAddressFamily::Ipv6,
                ) && interface_rows@[k].usable_address,
        decreases interface_rows@.len() - i,
    {
        let row = interface_rows[i];
        if row.interface_index == 0 {
            assert(interface_rows@[i as int].interface_index == 0);
            return Err(LinuxConnectivityEvidenceError::Malformed);
        }
        if row.up {
            any_up = true;
            if row.usable_address {
                match row.family {
                    Some(SanitizedAddressFamily::Ipv4) => {
                        ipv4_usable_address = true;
                    },
                    Some(SanitizedAddressFamily::Ipv6) => {
                        ipv6_usable_address = true;
                    },
                    None => {},
                }
            }
        }
        i = i + 1;
    }
    let ipv4_default_route = route_leaves_through_up_interface(
        interface_rows,
        route_rows,
        SanitizedAddressFamily::Ipv4,
    );
    let ipv6_default_route = route_leaves_through_up_interface(
        interface_rows,
        route_rows,
        SanitizedAddressFamily::Ipv6,
    );
    Ok(
        HostConnectivityEvidence {
            wireless_present: false,
            wireless_connected: false,
            ethernet_present: false,
            ethernet_connected: false,
            other_interface_connected: any_up,
            ipv4_usable_address,
            ipv4_default_route,
            ipv4_internet_reachable: None,
            ipv6_usable_address,
            ipv6_default_route,
            ipv6_internet_reachable: None,
            dns_configured: None,
            dns_resolves: None,
            captive_portal_suspected: None,
            probe_complete: true,
        },
    )
}

/// The 16-bit value at `offset`, in the given byte order.
pub open spec fn u16_at(bytes: Seq<u8>, offset: int, little_endian: bool) -> int {
    if little_endian {
        bytes[offset] + 256 * bytes[offset + 1]
    } else {
        256 * bytes[offset] + bytes[offset + 1]
    }
}

/// The 32-bit value at `offset`, in the given byte order.
pub open spec fn u32_at(bytes: Seq<u8>, offset: int, little_endian: bool) -> int {
    if little_endian {
        bytes[offset] + 256 * bytes[offset + 1] + 65536 * bytes[offset + 2] + 16777216 * bytes[offset + 3]
    } else {
        16777216 * bytes[offset] + 65536 * bytes[offset + 1] + 256 * bytes[offset + 2] + bytes[offset + 3]
    }
}

/// `value` rounded up to a multiple of four.
pub open spec fn align4(value: int) -> int {
    (value + 3) / 4 * 4
}

fn read_u16(bytes: &[u8], offset: usize, little_endian: bool) -> (value: u16)
    requires
        offset + 2 <= bytes@.len(),
    ensures
        value == u16_at(bytes@, offset as int, little_endian),
{
    let a = bytes[offset] as u16;
    let b = bytes[offset + 1] as u16;
    if little_endian {
        a + 256 * b
    } else {
        256 * a + b
    }
}

fn read_u32(bytes: &[u8], offset: usize, little_endian: bool) -> (value: u32)
    requires
        offset + 4 <= bytes@.len(),
    ensures
        value == u32_at(bytes@, offset as int, little_endian),
{
    let a = bytes[offset] as u32;
    let b = bytes[offset + 1] as u32;
    let c = bytes[offset + 2] as u32;
    let d = bytes[offset + 3] as u32;
    if little_endian {
        a + 256 * b + 65536 * c + 16777216 * d
    } else {
        16777216 * a + 65536 * b + 256 * c + d
    }
}

/// What the attributes of a route message say of its table and output interface, read from
/// `offset` on.
pub open spec fn route_attributes(
    payload: Seq<u8>,
    offset: int,
    table: int,
    output_interface: Option<int>,
    little_endian: bool,
) -> Result<(int, Option<int>), LinuxConnectivityEvidenceError>
    decreases payload.len() - offset,
{
    if offset < 0 || offset >= payload.len() {
        Ok((table, output_interface))
    } else if payload.len() - offset < ROUTE_ATTRIBUTE_HEADER_LEN {
        Err(LinuxConnectivityEvidenceError::Malformed)
    } else {
        let length = u16_at(payload, offset, little_endian);
        if length < ROUTE_ATTRIBUTE_HEADER_LEN || length > payload.len() - offset {
            Err(LinuxConnectivityEvidenceError::Malformed)
        } else {
            let kind = (u16_at(payload, offset + 2, little_endian) as u16) & NLA_TYPE_MASK;
            let value_len = length - ROUTE_ATTRIBUTE_HEADER_LEN;
            let value_at = offset + ROUTE_ATTRIBUTE_HEADER_LEN;
            let next_table = if kind == RTA_TABLE && value_len >= 4 {
                u32_at(payload, value_at, little_endian)
            } else {
                table
            };
            let next_interface = if kind == RTA_OIF && value_len >= 4 {
                Some(u32_at(payload, value_at, little_endian))
            } else {
                output_interface
            };
            let aligned_end = offset + align4(length);
            if aligned_end <= payload.len() {
                route_attributes(payload, aligned_end, next_table, next_interface, little_endian)
            } else if offset + length == payload.len() {
                Ok((next_table, next_interface))
            } else {
                Err(LinuxConnectivityEvidenceError::Malformed)
            }
        }
    }
}

/// The rows after one route message: a unicast route with no destination prefix in the main
/// table, with a nonzero output interface, adds its row unless the row is already there.
pub open spec fn route_message_rows(
    payload: Seq<u8>,
    rows: Seq<SanitizedRouteRow>,
    little_endian: bool,
) -> Result<Seq<SanitizedRouteRow>, LinuxConnectivityEvidenceError> {
    if payload.len() < ROUTE_MESSAGE_LEN {
        Err(LinuxConnectivityEvidenceError::Malformed)
    } else if payload[0] != AF_INET && payload[0] != AF_INET6 {
        Ok(rows)
    } else if payload[1] != 0 || payload[7] != RTN_UNICAST {
        Ok(rows)
    } else {
        let family = if payload[0] == AF_INET {
            SanitizedAddressFamily::Ipv4
        } else {
            SanitizedAddressFamily::Ipv6
        };
        match route_attributes(payload, ROUTE_MESSAGE_LEN as int, payload[4] as int, None, little_endian) {
            Err(error) => Err(error),
            Ok((table, output_interface)) => match output_interface {
                Some(index) => if table == RT_TABLE_MAIN && index != 0 {
                    let row = SanitizedRouteRow { family, output_interface: index as u32 };
                    if rows.contains(row) {
                        Ok(rows)
                    } else {
                        Ok(rows.push(row))
                    }
                } else {
                    Ok(rows)
                },
                None => Ok(rows),
            },
        }
    }
}

fn parse_route_attributes(
    payload: &[u8],
    message_table: u32,
    little_endian: bool,
) -> (result: Result<(u32, Option<u32>), LinuxConnectivityEvidenceError>)
    requires
        payload@.len() <= MAX_ROUTE_DUMP_BYTES,
    ensures
        match (result, route_attributes(payload@, ROUTE_MESSAGE_LEN as int, message_table as int, None, little_endian)) {
            (Ok((t, o)), Ok((st, so))) => t == st && match (o, so) {
                (Some(a), Some(b)) => a == b,
                (None, None) => true,
                _ => false,
            },
            (Err(e), Err(f)) => e == f,
            _ => false,
        },
{
    let mut table = message_table;
    let mut output_interface: Option<u32> = None;
    let mut offset: usize = ROUTE_MESSAGE_LEN;
    let ghost initial = route_attributes(payload@, ROUTE_MESSAGE_LEN as int, table as int, None, little_endian);
    while offset < payload.len()
        invariant
            payload@.len() <= MAX_ROUTE_DUMP_BYTES,
            initial == route_attributes(payload@, ROUTE_MESSAGE_LEN as int, message_table as int, None, little_endian),
            initial == route_attributes(
                payload@,
                offset as int,
                table as int,
                match output_interface {
                    Some(i) => Some(i as int),
                    None => None,
                },
                little_endian,
            ),
        decreases payload@.len() - offset,
    {
        if payload.len() - offset < ROUTE_ATTRIBUTE_HEADER_LEN {
            return Err(LinuxConnectivityEvidenceError::Malformed);
        }
        let length = read_u16(payload, offset, little_endian) as usize;
        if length < ROUTE_ATTRIBUTE_HEADER_LEN || length > payload.len() - offset {
            return Err(LinuxConnectivityEvidenceError::Malformed);
        }
        let kind = read_u16(payload, offset + 2, little_endian) & NLA_TYPE_MASK;
        let value_len = length - ROUTE_ATTRIBUTE_HEADER_LEN;
        let value_at = offset + ROUTE_ATTRIBUTE_HEADER_LEN;
        if kind == RTA_OIF && value_len >= 4 {
            output_interface = Some(read_u32(payload, value_at, little_endian));
        } else if kind == RTA_TABLE && value_len >= 4 {
            table = read_u32(payload, value_at, little_endian);
        }
        let aligned_end = offset + (length + 3) / 4 * 4;
        if aligned_end <= payload.len() {
            offset = aligned_end;
        } else if offset + length == payload.len() {
            return Ok((table, output_interface));
        } else {
            return Err(LinuxConnectivityEvidenceError::Malformed);
        }
    }
    Ok((table, output_interface))
}

fn contains_route(rows: &Vec<SanitizedRouteRow>, row: SanitizedRouteRow) -> (found: bool)
    ensures
        found == rows@.contains(row),
{
    let mut i: usize = 0;
    while i < rows.len()
        invariant
            i <= rows@.len(),
            forall|k: int| 0 <= k < i ==> rows@[k] != row,
        decreases rows@.len() - i,
    {
        if rows[i] == row {
            assert(rows@[i as int] == row);
            return true;
        }
        i = i + 1;
    }
    false
}

fn parse_route_message(payload: &[u8], rows: &mut Vec<SanitizedRouteRow>, little_endian: bool) -> (result: Result<
    (),
    LinuxConnectivityEvidenceError,
>)
    requires
        payload@.len() <= MAX_ROUTE_DUMP_BYTES,
    ensures
        match route_message_rows(payload@, old(rows)@, little_endian) {
            Ok(after) => result is Ok && final(rows)@ == after,
            Err(error) => result == Err::<(), LinuxConnectivityEvidenceError>(error) && final(rows)@
                == old(rows)@,
        },
{
    if payload.len() < ROUTE_MESSAGE_LEN {
        return Err(LinuxConnectivityEvidenceError::Malformed);
    }
    let family = if payload[0] == AF_INET {
        SanitizedAddressFamily::Ipv4
    } else if payload[0] == AF_INET6 {
        SanitizedAddressFamily::Ipv6
    } else {
        return Ok(());
    };
    if payload[1] != 0 || payload[7] != RTN_UNICAST {
        return Ok(());
    }
    let (table, output_interface) = match parse_route_attributes(payload, payload[4] as u32, little_endian) {
        Ok(found) => found,
        Err(error) => {
            return Err(error);
        },
    };
    match output_interface {
        Some(index) => {
            if table == RT_TABLE_MAIN && index != 0 {
                let row = SanitizedRouteRow { family, output_interface: index };
                if !contains_route(rows, row) {
                    rows.push(row);
                }
            }
        },
        None => {},
    }
    Ok(())
}

/// The state of a route dump parser.
pub struct RouteDumpState {
    pub sequence: u32,
    pub little_endian: bool,
    pub total_bytes: int,
    pub message_count: int,
    pub done: bool,
    pub rows: Seq<SanitizedRouteRow>,
}

/// What the messages of a chunk, read from `offset` on, do to the parser: its state after them,
/// and the error that stopped the reading, if any.
pub open spec fn dump_messages(state: RouteDumpState, chunk: Seq<u8>, offset: int) -> (
    RouteDumpState,
    Result<(), LinuxConnectivityEvidenceError>,
)
    decreases chunk.len() - offset,
{
    if offset < 0 || offset >= chunk.len() {
        (state, Ok(()))
    } else if chunk.len() - offset < NETLINK_HEADER_LEN {
        (state, Err(LinuxConnectivityEvidenceError::Malformed))
    } else {
        let le = state.little_endian;
        let length = u32_at(chunk, offset, le);
        if length < NETLINK_HEADER_LEN || length > chunk.len() - offset {
            (state, Err(LinuxConnectivityEvidenceError::Malformed))
        } else {
            let counted = RouteDumpState { message_count: state.message_count + 1, ..state };
            if counted.message_count > MAX_ROUTE_MESSAGES {
                (counted, Err(LinuxConnectivityEvidenceError::BudgetExceeded))
            } else if u32_at(chunk, offset + 8, le) != state.sequence {
                (counted, Err(LinuxConnectivityEvidenceError::Malformed))
            } else if (u16_at(chunk, offset + 6, le) as u16) & NLM_F_DUMP_INTR != 0 {
                (counted, Err(LinuxConnectivityEvidenceError::Incomplete))
            } else {
                let kind = u16_at(chunk, offset + 4, le);
                let payload = chunk.subrange(offset + NETLINK_HEADER_LEN, offset + length);
                let (handled, outcome) = if kind == NLMSG_ERROR {
                    if payload.len() < 4 {
                        (counted, Err(LinuxConnectivityEvidenceError::Malformed))
                    } else if u32_at(payload, 0, le) != 0 {
                        (counted, Err(LinuxConnectivityEvidenceError::KernelRejected))
                    } else {
                        (counted, Ok(()))
                    }
                } else if kind == NLMSG_DONE {
                    (RouteDumpState { done: true, ..counted }, Ok(()))
                } else if kind == NLMSG_OVERRUN {
                    (counted, Err(LinuxConnectivityEvidenceError::Incomplete))
                } else if kind == RTM_NEWROUTE {
                    match route_message_rows(payload, counted.rows, le) {
                        Ok(rows) => (RouteDumpState { rows, ..counted }, Ok(())),
                        Err(error) => (counted, Err(error)),
                    }
                } else {
                    (counted, Ok(()))
                };
                if outcome is Err {
                    (handled, outcome)
                } else {
                    let aligned_end = offset + align4(length);
                    let next = if aligned_end <= chunk.len() {
                        aligned_end
                    } else {
                        offset + length
                    };
                    if aligned_end > chunk.len() && offset + length != chunk.len() {
                        (handled, Err(LinuxConnectivityEvidenceError::Malformed))
                    } else if handled.done && next < chunk.len() {
                        (handled, Err(LinuxConnectivityEvidenceError::Malformed))
                    } else {
                        dump_messages(handled, chunk, next)
                    }
                }
            }
        }
    }
}

/// What pushing a chunk does: a parser that saw the end refuses more, the whole dump is held to
/// its byte budget, and then the messages are read in order.
pub open spec fn push_outcome(state: RouteDumpState, chunk: Seq<u8>) -> (
    RouteDumpState,
    Result<bool, LinuxConnectivityEvidenceError>,
) {
    if state.done {
        (state, Err(LinuxConnectivityEvidenceError::Malformed))
    } else if state.total_bytes + chunk.len() > usize::MAX {
        (state, Err(LinuxConnectivityEvidenceError::BudgetExceeded))
    } else {
        let counted = RouteDumpState { total_bytes: state.total_bytes + chunk.len(), ..state };
        if counted.total_bytes > MAX_ROUTE_DUMP_BYTES {
            (counted, Err(LinuxConnectivityEvidenceError::BudgetExceeded))
        } else {
            let (after, outcome) = dump_messages(counted, chunk, 0);
            match outcome {
                Ok(()) => (after, Ok(after.done)),
                Err(error) => (after, Err(error)),
            }
        }
    }
}

proof fn lemma_route_message_keeps_rows_distinct(
    payload: Seq<u8>,
    rows: Seq<SanitizedRouteRow>,
    little_endian: bool,
)
    requires
        rows.no_duplicates(),
    ensures
        route_message_rows(payload, rows, little_endian) matches Ok(after) ==> after.no_duplicates(),
{
    if let Ok(after) = route_message_rows(payload, rows, little_endian) {
        if after != rows {
            assert forall|i: int, j: int| 0 <= i < after.len() && 0 <= j < after.len() && i != j
                implies after[i] != after[j] by {
                if i < rows.len() && j < rows.len() {
                } else if i == rows.len() {
                    assert(rows.contains(after[i]) == false);
                    if after[i] == after[j] {
                        assert(rows.contains(rows[j]));
                    }
                } else {
                    assert(rows.contains(after[j]) == false);
                    if after[i] == after[j] {
                        assert(rows.contains(rows[i]));
                    }
                }
            }
        }
    }
}

proof fn lemma_dump_messages_keep_rows_distinct(state: RouteDumpState, chunk: Seq<u8>, offset: int)
    requires
        state.rows.no_duplicates(),
    ensures
        dump_messages(state, chunk, offset).0.rows.no_duplicates(),
    decreases chunk.len() - offset,
{
    if offset < 0 || offset >= chunk.len() || chunk.len() - offset < NETLINK_HEADER_LEN {
    } else {
        let le = state.little_endian;
        let length = u32_at(chunk, offset, le);
        let payload = chunk.subrange(offset + NETLINK_HEADER_LEN, offset + length);
        lemma_route_message_keeps_rows_distinct(payload, state.rows, le);
        let aligned_end = offset + align4(length);
        let next = if aligned_end <= chunk.len() {
            aligned_end
        } else {
            offset + length
        };
        if length >= NETLINK_HEADER_LEN && length <= chunk.len() - offset {
            let counted = RouteDumpState { message_count: state.message_count + 1, ..state };
            let kind = u16_at(chunk, offset + 4, le);
            if kind == NLMSG_DONE {
                lemma_dump_messages_keep_rows_distinct(RouteDumpState { done: true, ..counted }, chunk, next);
            } else if kind == RTM_NEWROUTE {
                if let Ok(rows) = route_message_rows(payload, counted.rows, le) {
                    lemma_dump_messages_keep_rows_distinct(RouteDumpState { rows, ..counted }, chunk, next);
                }
            } else {
                lemma_dump_messages_keep_rows_distinct(counted, chunk, next);
            }
        }
    }
}

/// Whatever chunks arrive, the route dump parser holds each route row at most once.
pub proof fn lemma_route_rows_stay_distinct(state: RouteDumpState, chunk: Seq<u8>)
    requires
        state.rows.no_duplicates(),
    ensures
        push_outcome(state, chunk).0.rows.no_duplicates(),
{
    let counted = RouteDumpState { total_bytes: state.total_bytes + chunk.len(), ..state };
    lemma_dump_messages_keep_rows_distinct(counted, chunk, 0);
}

/// Parses a netlink route dump that arrives in chunks, keeping only sanitized default routes.
pub struct RouteDumpParser {
    pub sequence: u32,
    pub little_endian: bool,
    pub total_bytes: usize,
    pub message_count: usize,
    pub done: bool,
    pub rows: Vec<SanitizedRouteRow>,
}

impl View for RouteDumpParser {
    type V = RouteDumpState;

    open spec fn view(&self) -> RouteDumpState {
        RouteDumpState {
            sequence: self.sequence,
            little_endian: self.little_endian,
            total_bytes: self.total_bytes as int,
            message_count: self.message_count as int,
            done: self.done,
            rows: self.rows@,
        }
    }
}

/// Reads two bytes as a `u16` in this machine's byte order with `u16::from_ne_bytes`: either
/// least or most significant byte first. Which of the two is not stated: it depends on the
/// machine.
#[verifier::external_body]
fn u16_from_native_bytes(low: u8, high: u8) -> (value: u16)
    ensures
        value == low + 256 * high || value == high + 256 * low,
{
    u16::from_ne_bytes([low, high])
}

/// Whether this machine stores integers least significant byte first.
fn native_little_endian() -> bool {
    u16_from_native_bytes(1, 0) == 1
}

impl RouteDumpParser {
    /// Each message counted took at least one byte of those counted.
    pub open spec fn wf(&self) -> bool {
        self.message_count <= self.total_bytes
    }

    /// A parser for the dump answering the request with `sequence`, in the given byte order.
    pub fn with_byte_order(sequence: u32, little_endian: bool) -> (parser: RouteDumpParser)
        ensures
            parser.wf(),
            parser@ == (RouteDumpState {
                sequence,
                little_endian,
                total_bytes: 0,
                message_count: 0,
                done: false,
                rows: Seq::empty(),
            }),
    {
        RouteDumpParser {
            sequence,
            little_endian,
            total_bytes: 0,
            message_count: 0,
            done: false,
            rows: Vec::new(),
        }
    }

    /// A parser for the dump answering the request with `sequence`, in the machine's byte order.
    pub fn new(sequence: u32) -> (parser: RouteDumpParser)
        ensures
            parser.wf(),
            parser@.sequence == sequence,
            parser@.total_bytes == 0,
            parser@.message_count == 0,
            !parser@.done,
            parser@.rows.len() == 0,
    {
        RouteDumpParser::with_byte_order(sequence, native_little_endian())
    }

    /// Reads one chunk of the dump; says whether the end of the dump was seen.
    pub fn push_chunk(&mut self, chunk: &[u8]) -> (result: Result<bool, LinuxConnectivityEvidenceError>)
        requires
            old(self).wf(),
        ensures
            final(self).wf(),
            (final(self)@, result) == push_outcome(old(self)@, chunk@),
    {
        if self.done {
            return Err(LinuxConnectivityEvidenceError::Malformed);
        }
        if chunk.len() > usize::MAX - self.total_bytes {
            return Err(LinuxConnectivityEvidenceError::BudgetExceeded);
        }
        self.total_bytes = self.total_bytes + chunk.len();
        if self.total_bytes > MAX_ROUTE_DUMP_BYTES {
            return Err(LinuxConnectivityEvidenceError::BudgetExceeded);
        }
        let ghost counted = self@;
        let le = self.little_endian;
        let mut offset: usize = 0;
        while offset < chunk.len()
            invariant
                chunk@.len() <= MAX_ROUTE_DUMP_BYTES,
                offset <= chunk@.len(),
                self.little_endian == le,
                self.total_bytes == counted.total_bytes,
                self.sequence == counted.sequence,
                !old(self)@.done,
                counted == (RouteDumpState { total_bytes: old(self)@.total_bytes + chunk@.len(), ..old(self)@ }),
                self.total_bytes <= MAX_ROUTE_DUMP_BYTES,
                self.message_count + chunk@.len() <= self.total_bytes + offset,
                self.done ==> offset >= chunk@.len(),
                dump_messages(counted, chunk@, 0) == dump_messages(self@, chunk@, offset as int),
            decreases chunk@.len() - offset,
        {
            if chunk.len() - offset < NETLINK_HEADER_LEN {
                return Err(LinuxConnectivityEvidenceError::Malformed);
            }
            let length = read_u32(chunk, offset, le) as usize;
            if length < NETLINK_HEADER_LEN || length > chunk.len() - offset {
                return Err(LinuxConnectivityEvidenceError::Malformed);
            }
            self.message_count = self.message_count + 1;
            if self.message_count > MAX_ROUTE_MESSAGES {
                return Err(LinuxConnectivityEvidenceError::BudgetExceeded);
            }
            let kind = read_u16(chunk, offset + 4, le);
            let flags = read_u16(chunk, offset + 6, le);
            let sequence = read_u32(chunk, offset + 8, le);
            if sequence != self.sequence {
                return Err(LinuxConnectivityEvidenceError::Malformed);
            }
            if flags & NLM_F_DUMP_INTR != 0 {
                return Err(LinuxConnectivityEvidenceError::Incomplete);
            }
            let payload = slice_range(chunk, offset + NETLINK_HEADER_LEN, offset + length);
            if kind == NLMSG_ERROR {
                if payload.len() < 4 {
                    return Err(LinuxConnectivityEvidenceError::Malformed);
                }
                if read_u32(payload, 0, le) != 0 {
                    return Err(LinuxConnectivityEvidenceError::KernelRejected);
                }
            } else if kind == NLMSG_DONE {
                self.done = true;
            } else if kind == NLMSG_OVERRUN {
                return Err(LinuxConnectivityEvidenceError::Incomplete);
            } else if kind == RTM_NEWROUTE {
                let outcome = parse_route_message(payload, &mut self.rows, le);
                if outcome.is_err() {
                    return match outcome {
                        Err(error) => Err(error),
                        Ok(()) => Ok(self.done),
                    };
                }
            }
            let aligned_end = offset + (length + 3) / 4 * 4;
            if aligned_end <= chunk.len() {
                offset = aligned_end;
            } else if offset + length == chunk.len() {
                offset = offset + length;
            } else {
                return Err(LinuxConnectivityEvidenceError::Malformed);
            }
            if self.done && offset < chunk.len() {
                return Err(LinuxConnectivityEvidenceError::Malformed);
            }
        }
        Ok(self.done)
    }

    /// The routes of a complete dump.
    pub fn finish(self) -> (result: Result<Vec<SanitizedRouteRow>, LinuxConnectivityEvidenceError>)
        ensures
            match result {
                Ok(rows) => self.done && rows@ == self.rows@,
                Err(error) => !self.done && error == LinuxConnectivityEvidenceError::Incomplete,
            },
    {
        if !self.done {
            return Err(LinuxConnectivityEvidenceError::Incomplete);
        }
        Ok(self.rows)
    }
}

/// The bytes of `bytes` from `start` to `end`.
fn slice_range(bytes: &[u8], start: usize, end: usize) -> (part: &[u8])
    requires
        start <= end <= bytes@.len(),
    ensures
        part@ == bytes@.subrange(start as int, end as int),
{
    let (head, _) = bytes.split_at(end);
    let (_, part) = head.split_at(start);
    part
}

/// A route dump request: one header asking to dump every route, and an unspecified family.
pub open spec fn route_request_bytes(sequence: u32, little_endian: bool) -> Seq<u8> {
    let total: int = 28;
    let kind: int = RTM_GETROUTE as int;
    let flags: int = (NLM_F_REQUEST + NLM_F_DUMP) as int;
    let s = sequence as int;
    if little_endian {
        seq![
            28u8, 0u8, 0u8, 0u8,
            26u8, 0u8,
            1u8, 3u8,
            (s % 256) as u8, (s / 256 % 256) as u8, (s / 65536 % 256) as u8, (s / 16777216) as u8,
            0u8, 0u8, 0u8, 0u8,
            0u8, 0u8, 0u8, 0u8, 0u8, 0u8, 0u8, 0u8, 0u8, 0u8, 0u8, 0u8,
        ]
    } else {
        seq![
            0u8, 0u8, 0u8, 28u8,
            0u8, 26u8,
            3u8, 1u8,
            (s / 16777216) as u8, (s / 65536 % 256) as u8, (s / 256 % 256) as u8, (s % 256) as u8,
            0u8, 0u8, 0u8, 0u8,
            0u8, 0u8, 0u8, 0u8, 0u8, 0u8, 0u8, 0u8, 0u8, 0u8, 0u8, 0u8,
        ]
    }
}

/// The route dump request in the given byte order.
pub fn route_dump_request_in(sequence: u32, little_endian: bool) -> (request: [u8; 28])
    ensures
        request@ == route_request_bytes(sequence, little_endian),
{
    let b0 = (sequence % 256) as u8;
    let b1 = (sequence / 256 % 256) as u8;
    let b2 = (sequence / 65536 % 256) as u8;
    let b3 = (sequence / 16777216) as u8;
    let request: [u8; 28] = if little_endian {
        [28, 0, 0, 0, 26, 0, 1, 3, b0, b1, b2, b3, 0, 0, 0, 0, 0, 0, 0, 0, 0, 0, 0, 0, 0, 0, 0, 0]
    } else {
        [0, 0, 0, 28, 0, 26, 3, 1, b3, b2, b1, b0, 0, 0, 0, 0, 0, 0, 0, 0, 0, 0, 0, 0, 0, 0, 0, 0]
    };
    assert(request@ =~= route_request_bytes(sequence, little_endian));
    request
}

/// The route dump request in the machine's byte order.
pub fn route_dump_request(sequence: u32) -> (request: [u8; 28])
    ensures
        request@ == route_request_bytes(sequence, true) || request@ == route_request_bytes(
            sequence,
            false,
        ),
{
    route_dump_request_in(sequence, native_little_endian())
}

/// Whether an interface's IPv4 address can carry traffic: not unspecified, loopback, link local,
/// multicast or broadcast, as `Ipv4Addr` defines them.
pub open spec fn ipv4_usable(o: Seq<u8>) -> bool {
    &&& !(o[0] == 0 && o[1] == 0 && o[2] == 0 && o[3] == 0)
    &&& o[0] != 127
    &&& !(o[0] == 169 && o[1] == 254)
    &&& !(224 <= o[0] <= 239)
    &&& !(o[0] == 255 && o[1] == 255 && o[2] == 255 && o[3] == 255)
}

/// Whether an interface's IPv6 address can carry traffic: not unspecified, loopback, multicast
/// or link local.
pub open spec fn ipv6_usable(s: Seq<u16>) -> bool {
    &&& !(forall|i: int| 0 <= i < 8 ==> s[i] == 0)
    &&& !((forall|i: int| 0 <= i < 7 ==> s[i] == 0) && s[7] == 1)
    &&& s[0] & 0xff00 != 0xff00
    &&& s[0] & 0xffc0 != 0xfe80
}

pub fn usable_ipv4(octets: [u8; 4]) -> (usable: bool)
    ensures
        usable == ipv4_usable(octets@),
{
    let (a, b, c, d) = (octets[0], octets[1], octets[2], octets[3]);
    !(a == 0 && b == 0 && c == 0 && d == 0) && a != 127 && !(a == 169 && b == 254) && !(224 <= a
        && a <= 239) && !(a == 255 && b == 255 && c == 255 && d == 255)
}

fn leading_zero_segments(s: &[u16; 8], count: usize) -> (zero: bool)
    requires
        count <= 8,
    ensures
        zero == forall|i: int| 0 <= i < count ==> s@[i] == 0,
{
    let mut i: usize = 0;
    while i < count
        invariant
            i <= count <= 8,
            s@.len() == 8,
            forall|j: int| 0 <= j < i ==> s@[j] == 0,
        decreases count - i,
    {
        if s[i] != 0 {
            return false;
        }
        i = i + 1;
    }
    true
}

pub fn usable_ipv6(segments: [u16; 8]) -> (usable: bool)
    ensures
        usable == ipv6_usable(segments@),
{
    let unspecified = leading_zero_segments(&segments, 8);
    let loopback = leading_zero_segments(&segments, 7) && segments[7] == 1;
    !unspecified && !loopback && segments[0] & 0xff00 != 0xff00 && segments[0] & 0xffc0 != 0xfe80
}

/// One entry of the host's interface address list, as plain values: whether it is the loopback
/// interface, its index (`None` when the name could not be resolved to one), its up and running
/// flags, and its address.
#[derive(Debug, Clone, Copy)]
pub struct InterfaceEntry {
    pub loopback: bool,
    pub index: Option<u32>,
    pub up: bool,
    pub running: bool,
    pub address: Option<IpAddress>,
}

/// The row an interface entry gives: its index, whether it is up and running, and the family and
/// usability of its address.
pub open spec fn entry_row(e: InterfaceEntry, index: u32) -> SanitizedInterfaceRow {
    SanitizedInterfaceRow {
        interface_index: index,
        up: e.up && e.running,
        family: match e.address {
            Some(IpAddress::V4(_)) => Some(SanitizedAddressFamily::Ipv4),
            Some(IpAddress::V6(_)) => Some(SanitizedAddressFamily::Ipv6),
            None => None,
        },
        usable_address: match e.address {
            Some(IpAddress::V4(o)) => ipv4_usable(o@),
            Some(IpAddress::V6(s)) => ipv6_usable(s@),
            None => false,
        },
    }
}

/// The rows of the entries, read in order: loopback entries are skipped, an entry over the
/// budget, without an index or with index zero stops the reading with its error.
pub open spec fn interface_rows_from(entries: Seq<InterfaceEntry>, visited: int, rows: Seq<SanitizedInterfaceRow>) -> Result<
    Seq<SanitizedInterfaceRow>,
    LinuxConnectivityEvidenceError,
>
    decreases entries.len(),
{
    if entries.len() == 0 {
        Ok(rows)
    } else if visited + 1 > MAX_INTERFACE_ROWS {
        Err(LinuxConnectivityEvidenceError::BudgetExceeded)
    } else if entries[0].loopback {
        interface_rows_from(entries.drop_first(), visited + 1, rows)
    } else {
        match entries[0].index {
            None => Err(LinuxConnectivityEvidenceError::NativeUnavailable),
            Some(index) => if index == 0 {
                Err(LinuxConnectivityEvidenceError::Malformed)
            } else {
                interface_rows_from(entries.drop_first(), visited + 1, rows.push(entry_row(entries[0], index)))
            },
        }
    }
}

fn sanitize_entry(entry: InterfaceEntry, index: u32) -> (row: SanitizedInterfaceRow)
    ensures
        row == entry_row(entry, index),
{
    let (family, usable_address) = match entry.address {
        Some(IpAddress::V4(octets)) => (Some(SanitizedAddressFamily::Ipv4), usable_ipv4(octets)),
        Some(IpAddress::V6(segments)) => (Some(SanitizedAddressFamily::Ipv6), usable_ipv6(segments)),
        None => (None, false),
    };
    SanitizedInterfaceRow { interface_index: index, up: entry.up && entry.running, family, usable_address }
}

/// Reduces the host's interface entries to sanitized rows, without names or addresses.
pub fn collect_interface_rows(entries: &[InterfaceEntry]) -> (result: Result<
    Vec<SanitizedInterfaceRow>,
    LinuxConnectivityEvidenceError,
>)
    ensures
        match interface_rows_from(entries@, 0, Seq::empty()) {
            Ok(rows) => result matches Ok(r) && r@ == rows,
            Err(error) => result matches Err(e) && e == error,
        },
{
    let mut rows: Vec<SanitizedInterfaceRow> = Vec::new();
    let mut i: usize = 0;
    assert(entries@.subrange(0, entries@.len() as int) =~= entries@);
    while i < entries.len()
        invariant
            i <= entries@.len(),
            i <= MAX_INTERFACE_ROWS,
            interface_rows_from(entries@, 0, Seq::empty()) == interface_rows_from(
                entries@.subrange(i as int, entries@.len() as int),
                i as int,
                rows@,
            ),
        decreases entries@.len() - i,
    {
        let ghost rest = entries@.subrange(i as int, entries@.len() as int);
        assert(rest[0] == entries@[i as int]);
        assert(rest.drop_first() =~= entries@.subrange(i + 1, entries@.len() as int));
        if i + 1 > MAX_INTERFACE_ROWS {
            return Err(LinuxConnectivityEvidenceError::BudgetExceeded);
        }
        let entry = entries[i];
        if !entry.loopback {
            let index = match entry.index {
                None => {
                    return Err(LinuxConnectivityEvidenceError::NativeUnavailable);
                },
                Some(index) => index,
            };
            if index == 0 {
                return Err(LinuxConnectivityEvidenceError::Malformed);
            }
            rows.push(sanitize_entry(entry, index));
        }
        i = i + 1;
    }
    assert(entries@.subrange(i as int, entries@.len() as int).len() == 0);
    Ok(rows)
}

} // verus!
