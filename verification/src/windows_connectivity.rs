//! Host connectivity evidence on Windows: the adapter rows that the IP helper reports, reduced
//! to links, addresses, gateways and DNS servers, and the decisions of the external probes
//! (which resolved addresses to use, what a connection attempt and a captive portal check say).
use vstd::prelude::*;

use crate::host_connectivity::{empty_evidence, HostConnectivityEvidence};
use crate::ip::{IpAddress, IpAddressView};
use crate::probe::SocketAddress;

verus! {

pub const MAX_ADAPTER_BUFFER_BYTES: usize = 1024 * 1024;

pub const MAX_ADAPTERS: usize = 256;

pub const MAX_ADDRESSES_PER_ADAPTER: usize = 256;

pub const MAX_RESOLVED_ADDRESSES: usize = 16;

pub const MAX_CONNECT_CANDIDATES: usize = 4;

pub const CONNECTIVITY_HOST: &'static str = "www.msftconnecttest.com";

pub const CONNECTIVITY_PORT: u16 = 80;

pub const CONNECTIVITY_URL: &'static str = "http://www.msftconnecttest.com/connecttest.txt";

/// The body that the connectivity URL answers with when no portal intercepts it.
pub const CONNECTIVITY_BODY: &'static str = "Microsoft Connect Test";

/// What an adapter is, as far as the evidence cares.
#[derive(Debug, Clone, Copy, PartialEq, Eq, Structural)]
pub enum AdapterKind {
    Wireless,
    Ethernet,
    Loopback,
    Tunnel,
    Other,
}

/// The family of a socket address.
#[derive(Debug, Clone, Copy, PartialEq, Eq, Structural)]
pub enum AddressFamily {
    Ipv4,
    Ipv6,
    Other,
}

/// One unicast address of an adapter: whether duplicate address detection settled on it, and
/// the family of its socket address where it has one.
#[derive(Debug, Clone, Copy, PartialEq, Eq, Structural)]
pub struct UnicastAddress {
    pub preferred: bool,
    pub family: Option<AddressFamily>,
}

/// One adapter as read from the IP helper: its kind and state, the unicast addresses and
/// gateways read (at most the per-adapter budget) and whether their lists went on past what
/// was read, and whether it has a DNS server.
#[derive(Debug, Clone, PartialEq, Eq)]
pub struct WindowsAdapter {
    pub kind: AdapterKind,
    pub up: bool,
    pub unicast: Vec<UnicastAddress>,
    pub more_unicast: bool,
    pub gateways: Vec<Option<AddressFamily>>,
    pub more_gateways: bool,
    pub has_dns_server: bool,
}

pub struct WindowsAdapterView {
    pub kind: AdapterKind,
    pub up: bool,
    pub unicast: Seq<UnicastAddress>,
    pub more_unicast: bool,
    pub gateways: Seq<Option<AddressFamily>>,
    pub more_gateways: bool,
    pub has_dns_server: bool,
}

impl View for WindowsAdapter {
    type V = WindowsAdapterView;

    open spec fn view(&self) -> WindowsAdapterView {
        WindowsAdapterView {
            kind: self.kind,
            up: self.up,
            unicast: self.unicast@,
            more_unicast: self.more_unicast,
            gateways: self.gateways@,
            more_gateways: self.more_gateways,
            has_dns_server: self.has_dns_server,
        }
    }
}

/// Whether some settled unicast address has the family.
pub open spec fn has_usable_address(unicast: Seq<UnicastAddress>, family: AddressFamily) -> bool {
    exists|i: int| 0 <= i < unicast.len() && (#[trigger] unicast[i]).preferred && unicast[i].family == Some(family)
}

/// Whether some gateway has the family.
pub open spec fn has_gateway(gateways: Seq<Option<AddressFamily>>, family: AddressFamily) -> bool {
    exists|i: int| 0 <= i < gateways.len() && #[trigger] gateways[i] == Some(family)
}

/// The evidence after one adapter: its link counts for its kind; a connected adapter adds its
/// addresses, gateways and DNS servers, and fails the whole reading when one of its lists is
/// longer than the budget.
pub open spec fn adapter_evidence(e: HostConnectivityEvidence, a: WindowsAdapterView) -> Option<HostConnectivityEvidence> {
    let linked = match a.kind {
        AdapterKind::Wireless => HostConnectivityEvidence {
            wireless_present: true,
            wireless_connected: e.wireless_connected || a.up,
            ..e
        },
        AdapterKind::Ethernet => HostConnectivityEvidence {
            ethernet_present: true,
            ethernet_connected: e.ethernet_connected || a.up,
            ..e
        },
        _ => HostConnectivityEvidence { other_interface_connected: e.other_interface_connected || a.up, ..e },
    };
    if !a.up {
        Some(linked)
    } else if a.more_unicast || a.unicast.len() > MAX_ADDRESSES_PER_ADAPTER || a.more_gateways
        || a.gateways.len() > MAX_ADDRESSES_PER_ADAPTER {
        None
    } else {
        Some(
            HostConnectivityEvidence {
                ipv4_usable_address: linked.ipv4_usable_address || has_usable_address(a.unicast, AddressFamily::Ipv4),
                ipv6_usable_address: linked.ipv6_usable_address || has_usable_address(a.unicast, AddressFamily::Ipv6),
                ipv4_default_route: linked.ipv4_default_route || has_gateway(a.gateways, AddressFamily::Ipv4),
                ipv6_default_route: linked.ipv6_default_route || has_gateway(a.gateways, AddressFamily::Ipv6),
                dns_configured: Some(linked.dns_configured == Some(true) || a.has_dns_server),
                ..linked
            },
        )
    }
}

/// The evidence after the adapters, in order; loopback and tunnel adapters are skipped.
pub open spec fn adapters_evidence(e: HostConnectivityEvidence, adapters: Seq<WindowsAdapterView>) -> Option<
    HostConnectivityEvidence,
>
    decreases adapters.len(),
{
    if adapters.len() == 0 {
        Some(e)
    } else if adapters[0].kind == AdapterKind::Loopback || adapters[0].kind == AdapterKind::Tunnel {
        adapters_evidence(e, adapters.drop_first())
    } else {
        match adapter_evidence(e, adapters[0]) {
            None => None,
            Some(next) => adapters_evidence(next, adapters.drop_first()),
        }
    }
}

/// The evidence of a complete adapter listing: `None` when the listing went on past the
/// adapter budget or an adapter could not be read whole.
pub open spec fn windows_evidence(adapters: Seq<WindowsAdapterView>, more_adapters: bool) -> Option<HostConnectivityEvidence> {
    if more_adapters || adapters.len() > MAX_ADAPTERS {
        None
    } else {
        adapters_evidence(HostConnectivityEvidence { probe_complete: true, ..empty_evidence() }, adapters)
    }
}

pub open spec fn adapter_views(adapters: Seq<WindowsAdapter>) -> Seq<WindowsAdapterView> {
    adapters.map_values(|a: WindowsAdapter| a@)
}

fn usable_address_present(unicast: &Vec<UnicastAddress>, family: AddressFamily) -> (found: bool)
    ensures
        found == has_usable_address(unicast@, family),
{
    let mut i: usize = 0;
    while i < unicast.len()
        invariant
            i <= unicast@.len(),
            forall|j: int| 0 <= j < i ==> !((#[trigger] unicast@[j]).preferred && unicast@[j].family == Some(family)),
        decreases unicast@.len() - i,
    {
        if unicast[i].preferred && unicast[i].family == Some(family) {
            assert(unicast@[i as int].preferred);
            return true;
        }
        i = i + 1;
    }
    false
}

fn gateway_present(gateways: &Vec<Option<AddressFamily>>, family: AddressFamily) -> (found: bool)
    ensures
        found == has_gateway(gateways@, family),
{
    let mut i: usize = 0;
    while i < gateways.len()
        invariant
            i <= gateways@.len(),
            forall|j: int| 0 <= j < i ==> #[trigger] gateways@[j] != Some(family),
        decreases gateways@.len() - i,
    {
        if gateways[i] == Some(family) {
            assert(gateways@[i as int] == Some(family));
            return true;
        }
        i = i + 1;
    }
    false
}

fn project_adapter(evidence: HostConnectivityEvidence, adapter: &WindowsAdapter) -> (next: Option<HostConnectivityEvidence>)
    ensures
        next == adapter_evidence(evidence, adapter@),
{
    let mut e = evidence;
    match adapter.kind {
        AdapterKind::Wireless => {
            e.wireless_present = true;
            e.wireless_connected = e.wireless_connected || adapter.up;
        },
        AdapterKind::Ethernet => {
            e.ethernet_present = true;
            e.ethernet_connected = e.ethernet_connected || adapter.up;
        },
        _ => {
            e.other_interface_connected = e.other_interface_connected || adapter.up;
        },
    }
    if !adapter.up {
        return Some(e);
    }
    if adapter.more_unicast || adapter.unicast.len() > MAX_ADDRESSES_PER_ADAPTER || adapter.more_gateways
        || adapter.gateways.len() > MAX_ADDRESSES_PER_ADAPTER {
        return None;
    }
    e.ipv4_usable_address = e.ipv4_usable_address || usable_address_present(&adapter.unicast, AddressFamily::Ipv4);
    e.ipv6_usable_address = e.ipv6_usable_address || usable_address_present(&adapter.unicast, AddressFamily::Ipv6);
    e.ipv4_default_route = e.ipv4_default_route || gateway_present(&adapter.gateways, AddressFamily::Ipv4);
    e.ipv6_default_route = e.ipv6_default_route || gateway_present(&adapter.gateways, AddressFamily::Ipv6);
    let dns_before = match e.dns_configured {
        Some(configured) => configured,
        None => false,
    };
    e.dns_configured = Some(dns_before || adapter.has_dns_server);
    Some(e)
}

/// Reduces an adapter listing to connectivity evidence.
pub fn collect_windows_evidence(adapters: &Vec<WindowsAdapter>, more_adapters: bool) -> (evidence: Option<
    HostConnectivityEvidence,
>)
    ensures
        evidence == windows_evidence(adapter_views(adapters@), more_adapters),
{
    if more_adapters || adapters.len() > MAX_ADAPTERS {
        return None;
    }
    let ghost all = adapter_views(adapters@);
    let mut evidence = HostConnectivityEvidence::default();
    evidence.probe_complete = true;
    assert(all.subrange(0, all.len() as int) =~= all);
    let mut i: usize = 0;
    while i < adapters.len()
        invariant
            i <= adapters@.len(),
            all == adapter_views(adapters@),
            windows_evidence(all, more_adapters) == adapters_evidence(evidence, all.subrange(i as int, all.len() as int)),
        decreases adapters@.len() - i,
    {
        let ghost rest = all.subrange(i as int, all.len() as int);
        assert(rest[0] == adapters@[i as int]@);
        assert(rest.drop_first() =~= all.subrange(i + 1, all.len() as int));
        let adapter = &adapters[i];
        if adapter.kind == AdapterKind::Loopback || adapter.kind == AdapterKind::Tunnel {
            i = i + 1;
        } else {
            match project_adapter(evidence, adapter) {
                None => {
                    return None;
                },
                Some(next) => {
                    evidence = next;
                    i = i + 1;
                },
            }
        }
    }
    assert(all.subrange(i as int, all.len() as int).len() == 0);
    Some(evidence)
}

/// Whether an adapter listing of `required` bytes fits the buffer budget.
pub fn adapter_buffer_acceptable(required: u64) -> (acceptable: bool)
    ensures
        acceptable == (0 < required && required <= MAX_ADAPTER_BUFFER_BYTES),
{
    0 < required && required <= MAX_ADAPTER_BUFFER_BYTES as u64
}

/// Whether an IPv4 address may be used to probe the internet, by the rules of `Ipv4Addr`
/// (`is_unspecified`, `is_loopback`, `is_private`, `is_link_local`, `is_broadcast`,
/// `is_multicast`, `is_documentation`) and the shared and benchmarking ranges.
pub open spec fn public_ipv4(o: Seq<u8>) -> bool {
    &&& !(o[0] == 0 && o[1] == 0 && o[2] == 0 && o[3] == 0)
    &&& o[0] != 127
    &&& o[0] != 10
    &&& !(o[0] == 172 && 16 <= o[1] <= 31)
    &&& !(o[0] == 192 && o[1] == 168)
    &&& !(o[0] == 169 && o[1] == 254)
    &&& !(o[0] == 255 && o[1] == 255 && o[2] == 255 && o[3] == 255)
    &&& !(224 <= o[0] <= 239)
    &&& !(o[0] == 192 && o[1] == 0 && o[2] == 2)
    &&& !(o[0] == 198 && o[1] == 51 && o[2] == 100)
    &&& !(o[0] == 203 && o[1] == 0 && o[2] == 113)
    &&& o[0] != 0
    &&& o[0] < 224
    &&& !(o[0] == 100 && 64 <= o[1] <= 127)
    &&& !(o[0] == 192 && o[1] == 0)
    &&& !(o[0] == 198 && (o[1] == 18 || o[1] == 19))
}

/// Whether an IPv6 address may be used to probe the internet: not unspecified, loopback or
/// multicast (as `Ipv6Addr` defines them), unique local, link local or documentation.
pub open spec fn public_ipv6(s: Seq<u16>) -> bool {
    &&& !(forall|i: int| 0 <= i < 8 ==> s[i] == 0)
    &&& !((forall|i: int| 0 <= i < 7 ==> s[i] == 0) && s[7] == 1)
    &&& !(s[0] & 0xff00 == 0xff00)
    &&& s[0] & 0xfe00 != 0xfc00
    &&& s[0] & 0xffc0 != 0xfe80
    &&& !(s[0] == 0x2001 && s[1] == 0x0db8)
}

pub open spec fn public_probe_ip(address: IpAddressView) -> bool {
    match address {
        IpAddressView::V4(octets) => public_ipv4(octets),
        IpAddressView::V6(segments) => public_ipv6(segments),
    }
}

fn all_zero_segments(s: &[u16; 8], count: usize) -> (zero: bool)
    requires
        count <= 8,
    ensures
        zero == forall|i: int| 0 <= i < count ==> s@[i] == 0,
{
    let mut i: usize = 0;
    while i < count
        invariant
            i <= count <= 8,
            s@.len() == 8,
            forall|j: int| 0 <= j < i ==> s@[j] == 0,
        decreases count - i,
    {
        if s[i] != 0 {
            return false;
        }
        i = i + 1;
    }
    true
}

/// Whether a resolved address may be used to probe the internet.
pub fn is_public_probe_ip(address: IpAddress) -> (public: bool)
    ensures
        public == public_probe_ip(address@),
{
    match address {
        IpAddress::V4(o) => {
            let (a, b, c, d) = (o[0], o[1], o[2], o[3]);
            !(a == 0 && b == 0 && c == 0 && d == 0) && a != 127 && a != 10 && !(a == 172 && 16 <= b
                && b <= 31) && !(a == 192 && b == 168) && !(a == 169 && b == 254) && !(a == 255 && b
                == 255 && c == 255 && d == 255) && !(224 <= a && a <= 239) && !(a == 192 && b == 0 && c
                == 2) && !(a == 198 && b == 51 && c == 100) && !(a == 203 && b == 0 && c == 113) && a
                != 0 && a < 224 && !(a == 100 && 64 <= b && b <= 127) && !(a == 192 && b == 0) && !(a
                == 198 && (b == 18 || b == 19))
        },
        IpAddress::V6(s) => {
            let unspecified = all_zero_segments(&s, 8);
            let loopback = all_zero_segments(&s, 7) && s[7] == 1;
            !unspecified && !loopback && !(s[0] & 0xff00 == 0xff00) && s[0] & 0xfe00 != 0xfc00 && s[0]
                & 0xffc0 != 0xfe80 && !(s[0] == 0x2001 && s[1] == 0x0db8)
        },
    }
}

/// The addresses to probe with: of the first resolved addresses, up to the budget, the public
/// ones, each once, in order.
pub open spec fn probe_addresses_from(
    resolved: Seq<(IpAddressView, u16)>,
    kept: Seq<(IpAddressView, u16)>,
) -> Seq<(IpAddressView, u16)>
    decreases resolved.len(),
{
    if resolved.len() == 0 {
        kept
    } else if public_probe_ip(resolved[0].0) && !kept.contains(resolved[0]) {
        probe_addresses_from(resolved.drop_first(), kept.push(resolved[0]))
    } else {
        probe_addresses_from(resolved.drop_first(), kept)
    }
}

pub open spec fn socket_seq_views(s: Seq<SocketAddress>) -> Seq<(IpAddressView, u16)> {
    s.map_values(|a: SocketAddress| a@)
}

pub open spec fn selected_probe_addresses(resolved: Seq<(IpAddressView, u16)>) -> Option<Seq<(IpAddressView, u16)>> {
    let bounded = if resolved.len() > MAX_RESOLVED_ADDRESSES {
        resolved.subrange(0, MAX_RESOLVED_ADDRESSES as int)
    } else {
        resolved
    };
    let kept = probe_addresses_from(bounded, Seq::empty());
    if kept.len() == 0 {
        None
    } else {
        Some(kept)
    }
}

fn same_socket_address(a: &SocketAddress, b: &SocketAddress) -> (same: bool)
    ensures
        same == (a@ == b@),
{
    a.port == b.port && crate::ip::same_ip(&a.ip, &b.ip)
}

/// Picks the resolved addresses that the external probes may use; `None` when none remains.
pub fn select_probe_addresses(resolved: &Vec<SocketAddress>) -> (addresses: Option<Vec<SocketAddress>>)
    ensures
        match addresses {
            Some(a) => selected_probe_addresses(socket_seq_views(resolved@)) == Some(socket_seq_views(a@)),
            None => selected_probe_addresses(socket_seq_views(resolved@)) is None,
        },
{
    let ghost all = socket_seq_views(resolved@);
    let limit = if resolved.len() > MAX_RESOLVED_ADDRESSES {
        MAX_RESOLVED_ADDRESSES
    } else {
        resolved.len()
    };
    let ghost bounded = all.subrange(0, limit as int);
    assert(bounded =~= (if all.len() > MAX_RESOLVED_ADDRESSES {
        all.subrange(0, MAX_RESOLVED_ADDRESSES as int)
    } else {
        all
    }));
    let mut kept: Vec<SocketAddress> = Vec::new();
    assert(bounded.subrange(0, limit as int) =~= bounded);
    assert(socket_seq_views(kept@) =~= Seq::<(IpAddressView, u16)>::empty());
    let mut i: usize = 0;
    while i < limit
        invariant
            i <= limit <= resolved@.len(),
            all == socket_seq_views(resolved@),
            bounded == all.subrange(0, limit as int),
            probe_addresses_from(bounded, Seq::empty()) == probe_addresses_from(
                bounded.subrange(i as int, limit as int),
                socket_seq_views(kept@),
            ),
        decreases limit - i,
    {
        let ghost rest = bounded.subrange(i as int, limit as int);
        assert(rest[0] == resolved@[i as int]@);
        assert(rest.drop_first() =~= bounded.subrange(i + 1, limit as int));
        let address = resolved[i];
        if is_public_probe_ip(address.ip) {
            let mut seen = false;
            let mut j: usize = 0;
            while j < kept.len()
                invariant
                    j <= kept@.len(),
                    seen <==> exists|k: int| 0 <= k < j && kept@[k]@ == address@,
                decreases kept@.len() - j,
            {
                if same_socket_address(&kept[j], &address) {
                    seen = true;
                }
                j = j + 1;
            }
            proof {
                let views = socket_seq_views(kept@);
                if seen {
                    let k = choose|k: int| 0 <= k < kept@.len() && kept@[k]@ == address@;
                    assert(views[k] == address@);
                } else {
                    assert forall|k: int| 0 <= k < views.len() implies views[k] != address@ by {
                        assert(views[k] == kept@[k]@);
                    }
                }
            }
            if !seen {
                let ghost before = kept@;
                kept.push(address);
                assert(socket_seq_views(kept@) =~= socket_seq_views(before).push(address@));
            }
        }
        i = i + 1;
    }
    assert(bounded.subrange(i as int, limit as int).len() == 0);
    if kept.len() == 0 {
        None
    } else {
        Some(kept)
    }
}

/// No address occurs twice.
pub open spec fn distinct_addresses(s: Seq<(IpAddressView, u16)>) -> bool {
    forall|i: int, j: int| 0 <= i < j < s.len() ==> s[i] != s[j]
}

proof fn lemma_probe_addresses_from(resolved: Seq<(IpAddressView, u16)>, kept: Seq<(IpAddressView, u16)>)
    requires
        distinct_addresses(kept),
        forall|k: int| 0 <= k < kept.len() ==> public_probe_ip(#[trigger] kept[k].0),
        kept.len() <= MAX_RESOLVED_ADDRESSES,
        kept.len() + resolved.len() <= MAX_RESOLVED_ADDRESSES,
    ensures
        ({
            let result = probe_addresses_from(resolved, kept);
            &&& distinct_addresses(result)
            &&& forall|k: int| 0 <= k < result.len() ==> public_probe_ip(#[trigger] result[k].0)
            &&& result.len() <= MAX_RESOLVED_ADDRESSES
        }),
    decreases resolved.len(),
{
    if resolved.len() > 0 {
        if public_probe_ip(resolved[0].0) && !kept.contains(resolved[0]) {
            let grown = kept.push(resolved[0]);
            assert forall|k: int| 0 <= k < grown.len() implies public_probe_ip(#[trigger] grown[k].0) by {
                if k < kept.len() {
                    assert(grown[k] == kept[k]);
                }
            }
            assert forall|i: int, j: int| 0 <= i < j < grown.len() implies grown[i] != grown[j] by {
                if j == kept.len() {
                    assert(grown[i] == kept[i]);
                } else {
                    assert(grown[i] == kept[i] && grown[j] == kept[j]);
                }
            }
            lemma_probe_addresses_from(resolved.drop_first(), grown);
        } else {
            lemma_probe_addresses_from(resolved.drop_first(), kept);
        }
    }
}

/// The addresses chosen for the external probes are public, none occurs twice, and there are
/// at most the budget of them.
pub proof fn lemma_probe_addresses_are_public_and_distinct(resolved: Seq<(IpAddressView, u16)>)
    ensures
        selected_probe_addresses(resolved) matches Some(selected) ==> {
            &&& 0 < selected.len() <= MAX_RESOLVED_ADDRESSES
            &&& distinct_addresses(selected)
            &&& forall|k: int| 0 <= k < selected.len() ==> public_probe_ip(#[trigger] selected[k].0)
        },
{
    let bounded = if resolved.len() > MAX_RESOLVED_ADDRESSES {
        resolved.subrange(0, MAX_RESOLVED_ADDRESSES as int)
    } else {
        resolved
    };
    lemma_probe_addresses_from(bounded, Seq::empty());
}

/// Whether an address is of the IPv6 family, or of the IPv4 one.
pub open spec fn of_family(ipv6: bool) -> spec_fn((IpAddressView, u16)) -> bool {
    |a: (IpAddressView, u16)| (a.0 is V6) == ipv6
}

/// The addresses of one family to attempt connections to: the first few of that family.
pub open spec fn family_candidates(addresses: Seq<(IpAddressView, u16)>, ipv6: bool) -> Seq<(IpAddressView, u16)> {
    let of_family = addresses.filter(of_family(ipv6));
    if of_family.len() > MAX_CONNECT_CANDIDATES {
        of_family.subrange(0, MAX_CONNECT_CANDIDATES as int)
    } else {
        of_family
    }
}

/// Picks the addresses of one family to attempt connections to.
pub fn connect_candidates(addresses: &Vec<SocketAddress>, ipv6: bool) -> (candidates: Vec<SocketAddress>)
    ensures
        socket_seq_views(candidates@) == family_candidates(socket_seq_views(addresses@), ipv6),
{
    let ghost all = socket_seq_views(addresses@);
    let ghost pred = of_family(ipv6);
    let mut candidates: Vec<SocketAddress> = Vec::new();
    let mut i: usize = 0;
    while i < addresses.len() && candidates.len() < MAX_CONNECT_CANDIDATES
        invariant
            i <= addresses@.len(),
            all == socket_seq_views(addresses@),
            pred == of_family(ipv6),
            candidates@.len() <= MAX_CONNECT_CANDIDATES,
            socket_seq_views(candidates@) == all.subrange(0, i as int).filter(pred),
        decreases addresses@.len() - i,
    {
        let address = addresses[i];
        let is_v6 = match address.ip {
            IpAddress::V6(_) => true,
            IpAddress::V4(_) => false,
        };
        proof {
            assert(all[i as int] == address@);
            assert(pred(all[i as int]) == (is_v6 == ipv6));
            assert(all.subrange(0, i + 1) =~= all.subrange(0, i as int).push(all[i as int]));
            all.subrange(0, i as int).lemma_filter_push(all[i as int], pred);
        }
        if is_v6 == ipv6 {
            let ghost before = candidates@;
            candidates.push(address);
            assert(socket_seq_views(candidates@) =~= socket_seq_views(before).push(address@));
        }
        i = i + 1;
    }
    proof {
        let of_family = all.filter(pred);
        if i == addresses@.len() {
            assert(all.subrange(0, i as int) =~= all);
        } else {
            assert(all =~= all.subrange(0, i as int) + all.subrange(i as int, all.len() as int));
            Seq::filter_distributes_over_add(
                all.subrange(0, i as int),
                all.subrange(i as int, all.len() as int),
                pred,
            );
            assert(of_family.subrange(0, MAX_CONNECT_CANDIDATES as int) =~= socket_seq_views(candidates@));
            if of_family.len() == MAX_CONNECT_CANDIDATES {
                assert(of_family =~= of_family.subrange(0, MAX_CONNECT_CANDIDATES as int));
            }
        }
    }
    candidates
}

/// What a family's connection attempts say: unknown when the family has no usable address or
/// nothing was attempted, reachable when one attempt connected, unreachable otherwise.
pub open spec fn spec_family_reachability(family_available: bool, attempts: Seq<bool>) -> Option<bool> {
    if !family_available || attempts.len() == 0 {
        None
    } else {
        Some(attempts.contains(true))
    }
}

/// Decides a family's reachability from its connection attempts, in order; the attempts after
/// the first success are not made.
pub fn family_reachability(family_available: bool, attempts: &[bool]) -> (reachable: Option<bool>)
    ensures
        reachable == spec_family_reachability(family_available, attempts@),
{
    if !family_available || attempts.len() == 0 {
        return None;
    }
    let mut i: usize = 0;
    while i < attempts.len()
        invariant
            family_available,
            i <= attempts@.len(),
            forall|j: int| 0 <= j < i ==> !attempts@[j],
        decreases attempts@.len() - i,
    {
        if attempts[i] {
            assert(attempts@[i as int] == true);
            assert(attempts@.contains(true));
            return Some(true);
        }
        i = i + 1;
    }
    Some(false)
}

/// What the captive portal check says: a non-success status is a portal, a body other than
/// the expected one is a portal, and an unreadable body says nothing.
pub open spec fn spec_captive_portal(status_success: bool, body: Option<Seq<u8>>) -> Option<bool> {
    if !status_success {
        Some(true)
    } else {
        match body {
            None => None,
            Some(bytes) => Some(bytes != vstd::string::StringSliceAdditionalSpecFns::spec_bytes(CONNECTIVITY_BODY)),
        }
    }
}

pub fn captive_portal_verdict(status_success: bool, body: Option<&[u8]>) -> (suspected: Option<bool>)
    ensures
        suspected == spec_captive_portal(
            status_success,
            match body {
                Some(b) => Some(b@),
                None => None,
            },
        ),
{
    if !status_success {
        return Some(true);
    }
    match body {
        None => None,
        Some(bytes) => {
            let expected = CONNECTIVITY_BODY.as_bytes();
            assert(expected@ == vstd::string::StringSliceAdditionalSpecFns::spec_bytes(CONNECTIVITY_BODY));
            if bytes.len() != expected.len() {
                assert(bytes@.len() != expected@.len());
                assert(bytes@ != expected@);
                return Some(true);
            }
            let mut i: usize = 0;
            while i < bytes.len()
                invariant
                    status_success,
                    body == Some(bytes),
                    i <= bytes@.len(),
                    bytes@.len() == expected@.len(),
                    expected@ == vstd::string::StringSliceAdditionalSpecFns::spec_bytes(CONNECTIVITY_BODY),
                    forall|j: int| 0 <= j < i ==> bytes@[j] == expected@[j],
                decreases bytes@.len() - i,
            {
                if bytes[i] != expected[i] {
                    assert(bytes@[i as int] != expected@[i as int]);
                    return Some(true);
                }
                i = i + 1;
            }
            assert(bytes@ =~= expected@);
            Some(false)
        },
    }
}

/// Whether the external probes run: only where a DNS server is configured.
pub fn needs_external_probes(evidence: HostConnectivityEvidence) -> (needed: bool)
    ensures
        needed == (evidence.dns_configured == Some(true)),
{
    match evidence.dns_configured {
        Some(configured) => configured,
        None => false,
    }
}

/// The evidence once the external probes have answered: DNS resolution, then, where it
/// resolved, each family's reachability and the captive portal check.
pub open spec fn spec_external_evidence(
    e: HostConnectivityEvidence,
    resolved: bool,
    ipv4_reachable: Option<bool>,
    ipv6_reachable: Option<bool>,
    captive_portal: Option<bool>,
) -> HostConnectivityEvidence {
    if e.dns_configured != Some(true) {
        e
    } else if !resolved {
        HostConnectivityEvidence { dns_resolves: Some(false), ..e }
    } else {
        HostConnectivityEvidence {
            dns_resolves: Some(true),
            ipv4_internet_reachable: ipv4_reachable,
            ipv6_internet_reachable: ipv6_reachable,
            captive_portal_suspected: captive_portal,
            ..e
        }
    }
}

pub fn with_external_evidence(
    evidence: HostConnectivityEvidence,
    resolved: bool,
    ipv4_reachable: Option<bool>,
    ipv6_reachable: Option<bool>,
    captive_portal: Option<bool>,
) -> (enriched: HostConnectivityEvidence)
    ensures
        enriched == spec_external_evidence(evidence, resolved, ipv4_reachable, ipv6_reachable, captive_portal),
{
    if !needs_external_probes(evidence) {
        return evidence;
    }
    let mut e = evidence;
    if !resolved {
        e.dns_resolves = Some(false);
        return e;
    }
    e.dns_resolves = Some(true);
    e.ipv4_internet_reachable = ipv4_reachable;
    e.ipv6_internet_reachable = ipv6_reachable;
    e.captive_portal_suspected = captive_portal;
    e
}

} // verus!
