//! Whether a TUN device is active on the host: the adapter to look for, the routes it must
//! carry, and the decision made from what the host's adapter and route tables show.
//!
//! Routes are compared in canonical form: an address with the bits past its prefix cleared.
use vstd::prelude::*;

use crate::corrupt_history::all_digits;
use crate::ip::{parse_ip_address, same_ip, std_parsed_ip, IpAddress, IpAddressView};
use crate::text::{
    ascii_lowercase, chars_of, string_of, to_ascii_lowercase, trim_chars, trimmed,
};

verus! {

/// A route prefix: an address and the length of its prefix in bits.
#[derive(Debug, Clone, Copy)]
pub struct ExpectedRoute {
    pub address: IpAddress,
    pub prefix_len: u8,
}

impl View for ExpectedRoute {
    type V = (IpAddressView, u8);

    open spec fn view(&self) -> (IpAddressView, u8) {
        (self.address@, self.prefix_len)
    }
}

/// The top `count` bits of an octet, the others cleared.
pub open spec fn keep_octet_bits(value: u8, count: int) -> u8 {
    if count <= 0 {
        0
    } else if count >= 8 {
        value
    } else {
        value & !(0xffu8 >> (count as u8))
    }
}

/// The top `count` bits of a 16-bit segment, the others cleared.
pub open spec fn keep_segment_bits(value: u16, count: int) -> u16 {
    if count <= 0 {
        0
    } else if count >= 16 {
        value
    } else {
        value & !(0xffffu16 >> (count as u16))
    }
}

/// The canonical route of an address and prefix length: the address with every bit past the
/// prefix cleared; `None` when the prefix is longer than the address.
pub open spec fn canonical_route(address: IpAddressView, prefix_len: u8) -> Option<(IpAddressView, u8)> {
    match address {
        IpAddressView::V4(octets) => if prefix_len <= 32 {
            Some(
                (
                    IpAddressView::V4(Seq::new(4, |k: int| keep_octet_bits(octets[k], prefix_len - 8 * k))),
                    prefix_len,
                ),
            )
        } else {
            None
        },
        IpAddressView::V6(segments) => if prefix_len <= 128 {
            Some(
                (
                    IpAddressView::V6(
                        Seq::new(8, |k: int| keep_segment_bits(segments[k], prefix_len - 16 * k)),
                    ),
                    prefix_len,
                ),
            )
        } else {
            None
        },
    }
}

fn keep_octet(value: u8, count: i32) -> (kept: u8)
    ensures
        kept == keep_octet_bits(value, count as int),
{
    if count <= 0 {
        0
    } else if count >= 8 {
        value
    } else {
        value & !(0xffu8 >> (count as u8))
    }
}

fn keep_segment(value: u16, count: i32) -> (kept: u16)
    ensures
        kept == keep_segment_bits(value, count as int),
{
    if count <= 0 {
        0
    } else if count >= 16 {
        value
    } else {
        value & !(0xffffu16 >> (count as u16))
    }
}

impl ExpectedRoute {
    /// The canonical route of `address` with a prefix of `prefix_len` bits, if the prefix fits.
    pub fn new(address: IpAddress, prefix_len: u8) -> (route: Option<ExpectedRoute>)
        ensures
            match route {
                Some(r) => canonical_route(address@, prefix_len) == Some(r@),
                None => canonical_route(address@, prefix_len) is None,
            },
    {
        let bits = prefix_len as i32;
        match address {
            IpAddress::V4(octets) => {
                if prefix_len > 32 {
                    return None;
                }
                let kept: [u8; 4] = [
                    keep_octet(octets[0], bits),
                    keep_octet(octets[1], bits - 8),
                    keep_octet(octets[2], bits - 16),
                    keep_octet(octets[3], bits - 24),
                ];
                assert(kept@ =~= Seq::new(4, |k: int| keep_octet_bits(octets@[k], prefix_len - 8 * k)));
                Some(ExpectedRoute { address: IpAddress::V4(kept), prefix_len })
            },
            IpAddress::V6(segments) => {
                if prefix_len > 128 {
                    return None;
                }
                let kept: [u16; 8] = [
                    keep_segment(segments[0], bits),
                    keep_segment(segments[1], bits - 16),
                    keep_segment(segments[2], bits - 32),
                    keep_segment(segments[3], bits - 48),
                    keep_segment(segments[4], bits - 64),
                    keep_segment(segments[5], bits - 80),
                    keep_segment(segments[6], bits - 96),
                    keep_segment(segments[7], bits - 112),
                ];
                assert(kept@ =~= Seq::new(8, |k: int| keep_segment_bits(segments@[k], prefix_len - 16 * k)));
                Some(ExpectedRoute { address: IpAddress::V6(kept), prefix_len })
            },
        }
    }

    /// Parses `address/prefix`, around which whitespace is ignored, into its canonical route.
    pub fn parse(value: &str) -> (route: Option<ExpectedRoute>)
        ensures
            match route {
                Some(r) => parsed_route(value@) == Some(r@),
                None => parsed_route(value@) is None,
            },
    {
        let chars = chars_of(value);
        let text = trim_chars(&chars);
        let mut slash: usize = 0;
        while slash < text.len() && text[slash] != '/'
            invariant
                slash <= text@.len(),
                forall|j: int| 0 <= j < slash ==> text@[j] != '/',
            decreases text@.len() - slash,
        {
            slash = slash + 1;
        }
        if slash == text.len() {
            proof {
                assert forall|i: int| !is_first_slash(text@, i) by {
                    if 0 <= i < text@.len() {
                        assert(text@[i] != '/');
                    }
                }
            }
            return None;
        }
        proof {
            assert(is_first_slash(text@, slash as int));
            assert forall|i: int| is_first_slash(text@, i) implies i == slash by {
                if i < slash {
                    assert(text@[i] != '/');
                } else if i > slash {
                    assert(text@[slash as int] != '/');
                }
            }
        }
        let address_text = string_of(&text, 0, slash);
        let prefix_text = string_of(&text, slash + 1, text.len());
        let address = match parse_ip_address(address_text.as_str()) {
            Some(address) => address,
            None => {
                return None;
            },
        };
        let prefix_len = match parse_u8(prefix_text.as_str()) {
            Some(prefix_len) => prefix_len,
            None => {
                return None;
            },
        };
        ExpectedRoute::new(address, prefix_len)
    }
}

proof fn lemma_keep_octet_idempotent(value: u8, count: int)
    ensures
        keep_octet_bits(keep_octet_bits(value, count), count) == keep_octet_bits(value, count),
{
    if 0 < count < 8 {
        let shift = count as u8;
        assert((value & !(0xffu8 >> shift)) & !(0xffu8 >> shift) == value & !(0xffu8 >> shift)) by (bit_vector);
    }
}

proof fn lemma_keep_segment_idempotent(value: u16, count: int)
    ensures
        keep_segment_bits(keep_segment_bits(value, count), count) == keep_segment_bits(value, count),
{
    if 0 < count < 16 {
        let shift = count as u16;
        assert((value & !(0xffffu16 >> shift)) & !(0xffffu16 >> shift) == value & !(0xffffu16 >> shift))
            by (bit_vector);
    }
}

/// A canonical route is its own canonical form: canonicalizing a second time changes nothing,
/// so routes compare equal exactly when their canonical forms do.
pub proof fn lemma_canonical_route_is_idempotent(address: IpAddressView, prefix_len: u8)
    ensures
        canonical_route(address, prefix_len) matches Some((canonical, p)) ==> canonical_route(canonical, p)
            == Some((canonical, p)),
{
    if let Some((canonical, p)) = canonical_route(address, prefix_len) {
        match address {
            IpAddressView::V4(octets) => {
                let kept = Seq::new(4, |k: int| keep_octet_bits(octets[k], prefix_len - 8 * k));
                assert forall|k: int| 0 <= k < 4 implies keep_octet_bits(kept[k], prefix_len - 8 * k) == kept[k] by {
                    lemma_keep_octet_idempotent(octets[k], prefix_len - 8 * k);
                }
                assert(Seq::new(4, |k: int| keep_octet_bits(kept[k], prefix_len - 8 * k)) =~= kept);
            },
            IpAddressView::V6(segments) => {
                let kept = Seq::new(8, |k: int| keep_segment_bits(segments[k], prefix_len - 16 * k));
                assert forall|k: int| 0 <= k < 8 implies keep_segment_bits(kept[k], prefix_len - 16 * k) == kept[k] by {
                    lemma_keep_segment_idempotent(segments[k], prefix_len - 16 * k);
                }
                assert(Seq::new(8, |k: int| keep_segment_bits(kept[k], prefix_len - 16 * k)) =~= kept);
            },
        }
    }
}

/// The value of a text of ASCII decimal digits.
pub open spec fn digits_value(digits: Seq<char>) -> nat
    decreases digits.len(),
{
    if digits.len() == 0 {
        0
    } else {
        digits_value(digits.drop_last()) * 10 + ((digits.last() as nat) - ('0' as nat)) as nat
    }
}

/// The number that `core` parses from a text with `str::parse::<u8>`: an optional `+` sign
/// followed by at least one ASCII decimal digit, of a value that fits in a byte.
pub open spec fn parsed_u8(text: Seq<char>) -> Option<u8> {
    let digits = if text.len() > 0 && text[0] == '+' {
        text.drop_first()
    } else {
        text
    };
    if digits.len() > 0 && all_digits(digits) && digits_value(digits) <= 255 {
        Some(digits_value(digits) as u8)
    } else {
        None
    }
}

/// Parses a decimal byte with the `FromStr for u8` of `core`.
#[verifier::external_body]
fn parse_u8(text: &str) -> (parsed: Option<u8>)
    ensures
        parsed == parsed_u8(text@),
{
    text.parse::<u8>().ok()
}

/// Whether `i` is the position of the first `/` of `text`.
pub open spec fn is_first_slash(text: Seq<char>, i: int) -> bool {
    &&& 0 <= i < text.len()
    &&& text[i] == '/'
    &&& forall|j: int| 0 <= j < i ==> text[j] != '/'
}

/// The route that `address/prefix` denotes: the text is trimmed and split at its first `/`,
/// the address is parsed as an IP address and the prefix as a byte, and the result is made
/// canonical.
pub open spec fn parsed_route(value: Seq<char>) -> Option<(IpAddressView, u8)> {
    let text = trimmed(value);
    if exists|i: int| is_first_slash(text, i) {
        let i = choose|i: int| is_first_slash(text, i);
        match (std_parsed_ip(text.subrange(0, i)), parsed_u8(text.subrange(i + 1, text.len() as int))) {
            (Some(address), Some(prefix_len)) => canonical_route(address, prefix_len),
            _ => None,
        }
    } else {
        None
    }
}

/// The routes as values.
pub open spec fn route_views(routes: Seq<ExpectedRoute>) -> Seq<(IpAddressView, u8)> {
    routes.map_values(|route: ExpectedRoute| route@)
}

pub open spec fn ipv4_route(a: u8, prefix_len: u8) -> (IpAddressView, u8) {
    (IpAddressView::V4(seq![a, 0u8, 0u8, 0u8]), prefix_len)
}

pub open spec fn ipv6_route(a: u16, prefix_len: u8) -> (IpAddressView, u8) {
    (IpAddressView::V6(seq![a, 0u16, 0u16, 0u16, 0u16, 0u16, 0u16, 0u16]), prefix_len)
}

/// Whether the routes capture all traffic of a family: its default route, or both halves of
/// its address space.
pub open spec fn captures_default(routes: Seq<(IpAddressView, u8)>) -> bool {
    ||| routes.contains(ipv4_route(0, 0))
    ||| routes.contains(ipv4_route(0, 1)) && routes.contains(ipv4_route(128, 1))
    ||| routes.contains(ipv6_route(0, 0))
    ||| routes.contains(ipv6_route(0, 1)) && routes.contains(ipv6_route(0x8000, 1))
}

fn contains_route(routes: &[ExpectedRoute], route: &ExpectedRoute) -> (found: bool)
    ensures
        found == route_views(routes@).contains(route@),
{
    let mut i: usize = 0;
    while i < routes.len()
        invariant
            i <= routes@.len(),
            forall|j: int| 0 <= j < i ==> route_views(routes@)[j] != route@,
        decreases routes@.len() - i,
    {
        if routes[i].prefix_len == route.prefix_len && same_ip(&routes[i].address, &route.address) {
            assert(route_views(routes@)[i as int] == route@);
            return true;
        }
        assert(route_views(routes@)[i as int] == routes@[i as int]@);
        i = i + 1;
    }
    false
}

/// Whether the observed routes capture all traffic of a family.
pub fn default_capture_routes_present(routes: &[ExpectedRoute]) -> (present: bool)
    ensures
        present == captures_default(route_views(routes@)),
{
    let ipv4_default = ExpectedRoute { address: IpAddress::V4([0, 0, 0, 0]), prefix_len: 0 };
    let ipv4_low = ExpectedRoute { address: IpAddress::V4([0, 0, 0, 0]), prefix_len: 1 };
    let ipv4_high = ExpectedRoute { address: IpAddress::V4([128, 0, 0, 0]), prefix_len: 1 };
    let ipv6_default = ExpectedRoute { address: IpAddress::V6([0, 0, 0, 0, 0, 0, 0, 0]), prefix_len: 0 };
    let ipv6_low = ExpectedRoute { address: IpAddress::V6([0, 0, 0, 0, 0, 0, 0, 0]), prefix_len: 1 };
    let ipv6_high = ExpectedRoute {
        address: IpAddress::V6([0x8000, 0, 0, 0, 0, 0, 0, 0]),
        prefix_len: 1,
    };
    assert(ipv4_default@ == ipv4_route(0, 0));
    assert(ipv4_low@ == ipv4_route(0, 1));
    assert(ipv4_high@ == ipv4_route(128, 1));
    assert(ipv6_default@ == ipv6_route(0, 0));
    assert(ipv6_low@ == ipv6_route(0, 1));
    assert(ipv6_high@ == ipv6_route(0x8000, 1));
    contains_route(routes, &ipv4_default) || (contains_route(routes, &ipv4_low) && contains_route(
        routes,
        &ipv4_high,
    )) || contains_route(routes, &ipv6_default) || (contains_route(routes, &ipv6_low)
        && contains_route(routes, &ipv6_high))
}

/// The routes that the configured route addresses require, each parsed; `None` if one of them
/// does not parse.
pub open spec fn required_route_views(texts: Seq<Seq<char>>) -> Option<Seq<(IpAddressView, u8)>> {
    if forall|i: int| 0 <= i < texts.len() ==> (#[trigger] parsed_route(texts[i])) is Some {
        Some(Seq::new(texts.len(), |i: int| parsed_route(texts[i]).unwrap()))
    } else {
        None
    }
}

/// Parses every configured route address.
pub fn required_routes(route_addresses: &[String]) -> (routes: Option<Vec<ExpectedRoute>>)
    ensures
        match routes {
            Some(routes) => required_route_views(route_addresses@.map_values(|t: String| t@))
                == Some(route_views(routes@)),
            None => required_route_views(route_addresses@.map_values(|t: String| t@)) is None,
        },
{
    let ghost texts = route_addresses@.map_values(|t: String| t@);
    let mut routes: Vec<ExpectedRoute> = Vec::new();
    let mut i: usize = 0;
    while i < route_addresses.len()
        invariant
            i <= route_addresses@.len(),
            texts == route_addresses@.map_values(|t: String| t@),
            routes@.len() == i,
            forall|j: int| 0 <= j < i ==> (#[trigger] parsed_route(texts[j])) == Some(routes@[j]@),
        decreases route_addresses@.len() - i,
    {
        match ExpectedRoute::parse(route_addresses[i].as_str()) {
            Some(route) => {
                routes.push(route);
            },
            None => {
                assert(parsed_route(texts[i as int]) is None);
                return None;
            },
        }
        i = i + 1;
    }
    assert(route_views(routes@) =~= Seq::new(texts.len(), |j: int| parsed_route(texts[j]).unwrap()));
    Some(routes)
}

/// Whether the routes that the TUN device needs are present among the observed ones: all the
/// required routes, or, where none is configured, a route set that captures all traffic.
pub open spec fn tun_routes_present(required: Seq<(IpAddressView, u8)>, observed: Seq<(IpAddressView, u8)>) -> bool {
    if required.len() == 0 {
        captures_default(observed)
    } else {
        forall|i: int| 0 <= i < required.len() ==> observed.contains(#[trigger] required[i])
    }
}

pub fn routes_present(required: &[ExpectedRoute], observed: &[ExpectedRoute]) -> (present: bool)
    ensures
        present == tun_routes_present(route_views(required@), route_views(observed@)),
{
    if required.len() == 0 {
        return default_capture_routes_present(observed);
    }
    let mut i: usize = 0;
    while i < required.len()
        invariant
            i <= required@.len(),
            required@.len() > 0,
            forall|j: int| 0 <= j < i ==> route_views(observed@).contains(#[trigger] route_views(required@)[j]),
        decreases required@.len() - i,
    {
        assert(route_views(required@)[i as int] == required@[i as int]@);
        if !contains_route(observed, &required[i]) {
            return false;
        }
        i = i + 1;
    }
    true
}

/// The adapter name to look for: the configured device, trimmed, unless there is none.
pub fn tun_device_lookup(device: Option<&str>) -> (name: Option<String>)
    ensures
        match device {
            None => name is None,
            Some(d) => if trimmed(d@).len() == 0 {
                name is None
            } else {
                name matches Some(n) && n@ == trimmed(d@)
            },
        },
{
    match device {
        None => None,
        Some(d) => {
            let chars = chars_of(d);
            let t = trim_chars(&chars);
            if t.len() == 0 {
                None
            } else {
                Some(string_of(&t, 0, t.len()))
            }
        },
    }
}

/// Whether an adapter's friendly name is the expected one, ignoring ASCII case, as
/// `str::eq_ignore_ascii_case` compares.
pub fn adapter_matches(friendly_name: &str, expected: &str) -> (matches: bool)
    ensures
        matches == (ascii_lowercase(friendly_name@) == ascii_lowercase(expected@)),
{
    let a = to_ascii_lowercase(&chars_of(friendly_name));
    let b = to_ascii_lowercase(&chars_of(expected));
    if a.len() != b.len() {
        assert(ascii_lowercase(friendly_name@).len() != ascii_lowercase(expected@).len());
        return false;
    }
    let mut i: usize = 0;
    while i < a.len()
        invariant
            i <= a@.len(),
            a@.len() == b@.len(),
            a@ == ascii_lowercase(friendly_name@),
            b@ == ascii_lowercase(expected@),
            forall|j: int| 0 <= j < i ==> a@[j] == b@[j],
        decreases a@.len() - i,
    {
        if a[i] != b[i] {
            assert(a@[i as int] != b@[i as int]);
            return false;
        }
        i = i + 1;
    }
    assert(a@ =~= b@);
    true
}

/// What is known of a TUN device once its adapter has been looked for.
#[derive(Debug, Clone, Copy, PartialEq, Eq, Structural)]
pub enum TunActivity {
    /// Nothing can be said: no device, the lookup failed, or auto-route is unknown.
    Unknown,
    /// The adapter does not exist.
    Inactive,
    /// The adapter exists and the core routes nothing through it by itself.
    Active,
    /// The adapter exists; whether it is active depends on its routes.
    CheckRoutes,
}

pub open spec fn spec_tun_activity(adapter_found: Option<bool>, auto_route: Option<bool>) -> TunActivity {
    match adapter_found {
        None => TunActivity::Unknown,
        Some(false) => TunActivity::Inactive,
        Some(true) => match auto_route {
            Some(false) => TunActivity::Active,
            Some(true) => TunActivity::CheckRoutes,
            None => TunActivity::Unknown,
        },
    }
}

/// Decides from the adapter lookup (`None` when it could not run) and the auto-route setting.
pub fn tun_activity(adapter_found: Option<bool>, auto_route: Option<bool>) -> (activity: TunActivity)
    ensures
        activity == spec_tun_activity(adapter_found, auto_route),
{
    match adapter_found {
        None => TunActivity::Unknown,
        Some(false) => TunActivity::Inactive,
        Some(true) => match auto_route {
            Some(false) => TunActivity::Active,
            Some(true) => TunActivity::CheckRoutes,
            None => TunActivity::Unknown,
        },
    }
}

} // verus!
