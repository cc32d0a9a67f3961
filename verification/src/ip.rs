//! IP addresses as plain octets and segments, and the textual forms that std parses.
use vstd::prelude::*;

verus! {

/// An IP address: four octets, or eight 16-bit segments, most significant first.
#[derive(Debug, Clone, Copy)]
pub enum IpAddress {
    V4([u8; 4]),
    V6([u16; 8]),
}

/// The value of an IP address, with the arrays as sequences.
pub enum IpAddressView {
    V4(Seq<u8>),
    V6(Seq<u16>),
}

impl View for IpAddress {
    type V = IpAddressView;

    open spec fn view(&self) -> IpAddressView {
        match self {
            IpAddress::V4(octets) => IpAddressView::V4(octets@),
            IpAddress::V6(segments) => IpAddressView::V6(segments@),
        }
    }
}

/// The address that `core::net` parses from a text with `str::parse::<IpAddr>`, if any.
pub uninterp spec fn std_parsed_ip(text: Seq<char>) -> Option<IpAddressView>;

pub open spec fn parsed_view(parsed: Option<IpAddress>) -> Option<IpAddressView> {
    match parsed {
        Some(address) => Some(address@),
        None => None,
    }
}

/// Parses an IPv4 or IPv6 address with the `FromStr for IpAddr` of `core::net`.
#[verifier::external_body]
pub(crate) fn parse_ip_address(text: &str) -> (parsed: Option<IpAddress>)
    ensures
        parsed_view(parsed) == std_parsed_ip(text@),
{
    match text.parse::<core::net::IpAddr>() {
        Ok(core::net::IpAddr::V4(address)) => Some(IpAddress::V4(address.octets())),
        Ok(core::net::IpAddr::V6(address)) => Some(IpAddress::V6(address.segments())),
        Err(_) => None,
    }
}

/// Whether an IPv4 address is in 127.0.0.0/8.
pub open spec fn ipv4_is_loopback(octets: Seq<u8>) -> bool {
    octets[0] == 127
}

/// Whether an IPv6 address is `::1`.
pub open spec fn ipv6_is_loopback(segments: Seq<u16>) -> bool {
    &&& forall|i: int| 0 <= i < 7 ==> segments[i] == 0
    &&& segments[7] == 1
}

/// Whether an address is a loopback address, as `IpAddr::is_loopback` defines it.
pub open spec fn is_loopback(address: IpAddressView) -> bool {
    match address {
        IpAddressView::V4(octets) => ipv4_is_loopback(octets),
        IpAddressView::V6(segments) => ipv6_is_loopback(segments),
    }
}

pub fn address_is_loopback(address: &IpAddress) -> (loopback: bool)
    ensures
        loopback == is_loopback(address@),
{
    match address {
        IpAddress::V4(octets) => octets[0] == 127,
        IpAddress::V6(segments) => {
            let mut i: usize = 0;
            while i < 7
                invariant
                    i <= 7,
                    segments@.len() == 8,
                    address@ == IpAddressView::V6(segments@),
                    forall|j: int| 0 <= j < i ==> segments@[j] == 0,
                decreases 7 - i,
            {
                if segments[i] != 0 {
                    assert(!ipv6_is_loopback(segments@)) by {
                        assert(segments@[i as int] != 0);
                    }
                    return false;
                }
                i = i + 1;
            }
            segments[7] == 1
        },
    }
}

/// Whether two addresses are the same address.
pub fn same_ip(a: &IpAddress, b: &IpAddress) -> (same: bool)
    ensures
        same == (a@ == b@),
{
    match (a, b) {
        (IpAddress::V4(x), IpAddress::V4(y)) => {
            let same = x[0] == y[0] && x[1] == y[1] && x[2] == y[2] && x[3] == y[3];
            if same {
                assert(x@ =~= y@);
            }
            same
        },
        (IpAddress::V6(x), IpAddress::V6(y)) => {
            let mut i: usize = 0;
            while i < 8
                invariant
                    i <= 8,
                    x@.len() == 8 && y@.len() == 8,
                    a@ == IpAddressView::V6(x@),
                    b@ == IpAddressView::V6(y@),
                    forall|j: int| 0 <= j < i ==> x@[j] == y@[j],
                decreases 8 - i,
            {
                if x[i] != y[i] {
                    assert(x@[i as int] != y@[i as int]);
                    return false;
                }
                i = i + 1;
            }
            assert(x@ =~= y@);
            true
        },
        _ => false,
    }
}

} // verus!
