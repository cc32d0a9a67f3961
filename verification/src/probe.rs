//! The rules of the network probe tool: which targets may be probed, and which resolved
//! addresses may be connected to.
use vstd::prelude::*;

use core::time::Duration;

use crate::ip::{same_ip, IpAddress, IpAddressView};
use crate::model::{AgentNetworkProbeRequest, AgentNetworkProbeResult};
use crate::registry::{duration_from_millis, millis_duration, AgentToolError, AgentToolErrorCode};
use crate::text::{ascii_lowercase, chars_equal, chars_of, str_equal, to_ascii_lowercase};

verus! {

pub const NETWORK_PROBE_DEFAULT_TIMEOUT_MS: u32 = 5_000;

pub const NETWORK_PROBE_MIN_TIMEOUT_MS: u32 = 1_000;

pub const NETWORK_PROBE_REQUEST_TIMEOUT_MS: u32 = 10_000;

pub const MAX_NETWORK_PROBE_URL_BYTES: usize = 2_048;

pub const MAX_RESOLVED_ADDRESSES: usize = 16;

pub fn invalid_target() -> (error: AgentToolError)
    ensures
        error.code == AgentToolErrorCode::InvalidTarget,
        error.message@ == "only public HTTP and HTTPS targets are allowed"@,
{
    AgentToolError::new(
        AgentToolErrorCode::InvalidTarget,
        "only public HTTP and HTTPS targets are allowed",
    )
}

pub fn blocked_target() -> (error: AgentToolError)
    ensures
        error.code == AgentToolErrorCode::TargetBlocked,
        error.message@ == "local, private, reserved, and special-use targets are blocked"@,
{
    AgentToolError::new(
        AgentToolErrorCode::TargetBlocked,
        "local, private, reserved, and special-use targets are blocked",
    )
}

pub fn probe_timed_out() -> (error: AgentToolError)
    ensures
        error.code == AgentToolErrorCode::TimedOut,
        error.message@ == "network probe timed out"@,
{
    AgentToolError::new(AgentToolErrorCode::TimedOut, "network probe timed out")
}

pub fn resolution_failed() -> (error: AgentToolError)
    ensures
        error.code == AgentToolErrorCode::ResolutionFailed,
        error.message@ == "target hostname could not be safely resolved"@,
{
    AgentToolError::new(
        AgentToolErrorCode::ResolutionFailed,
        "target hostname could not be safely resolved",
    )
}

/// The text without its trailing dots.
pub open spec fn without_trailing_dots(s: Seq<char>) -> Seq<char>
    decreases s.len(),
{
    if s.len() > 0 && s.last() == '.' {
        without_trailing_dots(s.drop_last())
    } else {
        s
    }
}

pub open spec fn ends_with(s: Seq<char>, suffix: Seq<char>) -> bool {
    s.len() >= suffix.len() && s.subrange(s.len() - suffix.len(), s.len() as int) == suffix
}

/// Names of hosts that are never probed, and the suffixes of local or special-use domains.
pub open spec fn blocked_suffixes() -> Seq<&'static str> {
    seq![".localhost", ".local", ".internal", ".arpa", ".test", ".invalid", ".example", ".onion"]
}

/// Whether a host name names this machine, a cloud metadata service, or a special-use domain.
pub open spec fn hostname_blocked(host: Seq<char>) -> bool {
    let name = ascii_lowercase(without_trailing_dots(host));
    ||| name == "localhost"@
    ||| name == "metadata.amazonaws.com"@
    ||| exists|i: int|
        0 <= i < blocked_suffixes().len() && ends_with(name, (#[trigger] blocked_suffixes()[i])@)
}

fn chars_end_with(s: &Vec<char>, suffix: &str) -> (result: bool)
    ensures
        result == ends_with(s@, suffix@),
{
    let tail = chars_of(suffix);
    if tail.len() > s.len() {
        return false;
    }
    let start: usize = s.len() - tail.len();
    let mut i: usize = 0;
    while i < tail.len()
        invariant
            i <= tail@.len(),
            tail@ == suffix@,
            start + tail@.len() == s@.len(),
            s@.len() <= usize::MAX,
            forall|j: int| 0 <= j < i ==> s@[start + j] == tail@[j],
        decreases tail@.len() - i,
    {
        if s[start + i] != tail[i] {
            assert(s@.subrange(start as int, s@.len() as int)[i as int] != tail@[i as int]);
            return false;
        }
        i = i + 1;
    }
    assert(s@.subrange(start as int, s@.len() as int) =~= tail@);
    true
}

pub fn is_blocked_hostname(host: &str) -> (blocked: bool)
    ensures
        blocked == hostname_blocked(host@),
{
    let mut chars = chars_of(host);
    while chars.len() > 0 && chars[chars.len() - 1] == '.'
        invariant
            without_trailing_dots(chars@) == without_trailing_dots(host@),
        decreases chars@.len(),
    {
        let ghost before = chars@;
        chars.pop();
        assert(chars@ == before.drop_last());
    }
    let name = to_ascii_lowercase(&chars);
    if chars_equal(&name, "localhost") || chars_equal(&name, "metadata.amazonaws.com") {
        return true;
    }
    let suffixes: [&str; 8] = [
        ".localhost",
        ".local",
        ".internal",
        ".arpa",
        ".test",
        ".invalid",
        ".example",
        ".onion",
    ];
    assert(suffixes@ =~= blocked_suffixes());
    let mut i: usize = 0;
    while i < 8
        invariant
            i <= 8,
            suffixes@ == blocked_suffixes(),
            name@ == ascii_lowercase(without_trailing_dots(host@)),
            forall|j: int| 0 <= j < i ==> !ends_with(name@, (#[trigger] blocked_suffixes()[j])@),
        decreases 8 - i,
    {
        if chars_end_with(&name, suffixes[i]) {
            return true;
        }
        i = i + 1;
    }
    false
}

/// Whether an IPv4 address is unspecified, private, shared, loopback, link-local, reserved for
/// documentation or benchmarking, or multicast and above.
pub open spec fn ipv4_blocked(octets: Seq<u8>) -> bool {
    let a = octets[0];
    let b = octets[1];
    let c = octets[2];
    ||| a == 0
    ||| a == 10
    ||| a == 127
    ||| (a == 100 && 64 <= b <= 127)
    ||| (a == 169 && b == 254)
    ||| (a == 172 && 16 <= b <= 31)
    ||| (a == 192 && b == 0 && c == 0)
    ||| (a == 192 && b == 0 && c == 2)
    ||| (a == 192 && b == 88 && c == 99)
    ||| (a == 192 && b == 168)
    ||| (a == 198 && 18 <= b <= 19)
    ||| (a == 198 && b == 51 && c == 100)
    ||| (a == 203 && b == 0 && c == 113)
    ||| a >= 224
}

pub fn is_blocked_ipv4(octets: [u8; 4]) -> (blocked: bool)
    ensures
        blocked == ipv4_blocked(octets@),
{
    let a = octets[0];
    let b = octets[1];
    let c = octets[2];
    a == 0 || a == 10 || a == 127 || (a == 100 && 64 <= b && b <= 127) || (a == 169 && b == 254)
        || (a == 172 && 16 <= b && b <= 31) || (a == 192 && b == 0 && c == 0) || (a == 192 && b
        == 0 && c == 2) || (a == 192 && b == 88 && c == 99) || (a == 192 && b == 168) || (a == 198
        && 18 <= b && b <= 19) || (a == 198 && b == 51 && c == 100) || (a == 203 && b == 0 && c
        == 113) || a >= 224
}

/// Whether an IPv6 address is `::ffff:a.b.c.d`, as `Ipv6Addr::to_ipv4_mapped` recognizes it.
pub open spec fn ipv4_mapped(segments: Seq<u16>) -> bool {
    &&& forall|i: int| 0 <= i < 5 ==> segments[i] == 0
    &&& segments[5] == 0xffff
}

/// The four octets of an IPv4-mapped IPv6 address.
pub open spec fn mapped_octets(segments: Seq<u16>) -> Seq<u8> {
    seq![
        (segments[6] / 256) as u8,
        (segments[6] % 256) as u8,
        (segments[7] / 256) as u8,
        (segments[7] % 256) as u8,
    ]
}

/// Whether all eight segments are zero (`::`).
pub open spec fn ipv6_unspecified(segments: Seq<u16>) -> bool {
    forall|i: int| 0 <= i < 8 ==> segments[i] == 0
}

/// Whether an IPv6 address may not be probed: an IPv4-mapped address follows the IPv4 rules;
/// otherwise anything outside the current global unicast range 2000::/3 is blocked, and so are
/// the IETF protocol, documentation, 6to4 and 3fff::/20 ranges.
pub open spec fn ipv6_blocked(segments: Seq<u16>) -> bool {
    if ipv4_mapped(segments) {
        ipv4_blocked(mapped_octets(segments))
    } else {
        ||| ipv6_unspecified(segments)
        ||| crate::ip::ipv6_is_loopback(segments)
        ||| segments[0] >= 0xff00
        ||| !(0x2000 <= segments[0] <= 0x3fff)
        ||| (segments[0] == 0x2001 && segments[1] <= 0x01ff)
        ||| (segments[0] == 0x2001 && segments[1] == 0x0db8)
        ||| segments[0] == 0x2002
        ||| (segments[0] == 0x3fff && segments[1] < 0x1000)
    }
}

pub fn is_blocked_ipv6(segments: [u16; 8]) -> (blocked: bool)
    ensures
        blocked == ipv6_blocked(segments@),
{
    let mut leading_zero = true;
    let mut i: usize = 0;
    while i < 5
        invariant
            i <= 5,
            segments@.len() == 8,
            leading_zero == (forall|j: int| 0 <= j < i ==> segments@[j] == 0),
        decreases 5 - i,
    {
        if segments[i] != 0 {
            leading_zero = false;
        }
        i = i + 1;
    }
    if leading_zero && segments[5] == 0xffff {
        let high = segments[6];
        let low = segments[7];
        let octets: [u8; 4] = [(high / 256) as u8, (high % 256) as u8, (low / 256) as u8, (low % 256) as u8];
        assert(octets@ =~= mapped_octets(segments@));
        return is_blocked_ipv4(octets);
    }
    let unspecified = leading_zero && segments[5] == 0 && segments[6] == 0 && segments[7] == 0;
    let loopback = leading_zero && segments[5] == 0 && segments[6] == 0 && segments[7] == 1;
    proof {
        if leading_zero && segments[5] == 0 && segments[6] == 0 {
            assert(forall|j: int| 0 <= j < 7 ==> segments@[j] == 0);
        }
        if !leading_zero {
            let k = choose|k: int| 0 <= k < 5 && segments@[k] != 0;
            assert(segments@[k] != 0);
        }
    }
    let first = segments[0];
    let second = segments[1];
    unspecified || loopback || first >= 0xff00 || !(0x2000 <= first && first <= 0x3fff) || (first
        == 0x2001 && second <= 0x01ff) || (first == 0x2001 && second == 0x0db8) || first == 0x2002
        || (first == 0x3fff && second < 0x1000)
}

pub open spec fn ip_blocked(address: IpAddressView) -> bool {
    match address {
        IpAddressView::V4(octets) => ipv4_blocked(octets),
        IpAddressView::V6(segments) => ipv6_blocked(segments),
    }
}

pub fn is_blocked_ip(address: IpAddress) -> (blocked: bool)
    ensures
        blocked == ip_blocked(address@),
{
    match address {
        IpAddress::V4(octets) => is_blocked_ipv4(octets),
        IpAddress::V6(segments) => is_blocked_ipv6(segments),
    }
}

/// An address and port that a probe may connect to.
#[derive(Debug, Clone, Copy)]
pub struct SocketAddress {
    pub ip: IpAddress,
    pub port: u16,
}

impl View for SocketAddress {
    type V = (IpAddressView, u16);

    open spec fn view(&self) -> (IpAddressView, u16) {
        (self.ip@, self.port)
    }
}

fn same_socket(a: &SocketAddress, b: &SocketAddress) -> (same: bool)
    ensures
        same == (a@ == b@),
{
    a.port == b.port && same_ip(&a.ip, &b.ip)
}

/// What the address filter makes of resolved addresses, read in order: a blocked address fails
/// the whole resolution, repeats are dropped, and reading stops once the limit is reached.
pub open spec fn safe_addresses_from(
    resolved: Seq<(IpAddressView, u16)>,
    taken: Seq<(IpAddressView, u16)>,
) -> Result<Seq<(IpAddressView, u16)>, AgentToolErrorCode>
    decreases resolved.len(),
{
    if resolved.len() == 0 || taken.len() >= MAX_RESOLVED_ADDRESSES {
        Ok(taken)
    } else if ip_blocked(resolved[0].0) {
        Err(AgentToolErrorCode::TargetBlocked)
    } else if taken.contains(resolved[0]) {
        safe_addresses_from(resolved.drop_first(), taken)
    } else {
        safe_addresses_from(resolved.drop_first(), taken.push(resolved[0]))
    }
}

/// The addresses a probe may connect to; none at all is a failed resolution.
pub open spec fn safe_addresses(resolved: Seq<(IpAddressView, u16)>) -> Result<
    Seq<(IpAddressView, u16)>,
    AgentToolErrorCode,
> {
    match safe_addresses_from(resolved, Seq::empty()) {
        Ok(taken) => if taken.len() == 0 {
            Err(AgentToolErrorCode::ResolutionFailed)
        } else {
            Ok(taken)
        },
        Err(code) => Err(code),
    }
}

pub open spec fn socket_views(s: Seq<SocketAddress>) -> Seq<(IpAddressView, u16)> {
    s.map_values(|a: SocketAddress| a@)
}

pub fn collect_safe_addresses(resolved: Vec<SocketAddress>) -> (result: Result<
    Vec<SocketAddress>,
    AgentToolError,
>)
    ensures
        match (result, safe_addresses(socket_views(resolved@))) {
            (Ok(addresses), Ok(expected)) => socket_views(addresses@) == expected,
            (Err(error), Err(code)) => error.code == code,
            _ => false,
        },
{
    let ghost all = socket_views(resolved@);
    let mut addresses: Vec<SocketAddress> = Vec::new();
    let mut i: usize = 0;
    assert(all.subrange(0, all.len() as int) =~= all);
    assert(socket_views(addresses@) =~= Seq::<(IpAddressView, u16)>::empty());
    while i < resolved.len() && addresses.len() < MAX_RESOLVED_ADDRESSES
        invariant
            i <= resolved@.len(),
            all == socket_views(resolved@),
            addresses@.len() <= MAX_RESOLVED_ADDRESSES,
            safe_addresses_from(all, Seq::empty()) == safe_addresses_from(
                all.subrange(i as int, all.len() as int),
                socket_views(addresses@),
            ),
        decreases resolved@.len() - i,
    {
        let ghost rest = all.subrange(i as int, all.len() as int);
        assert(rest.drop_first() =~= all.subrange(i + 1, all.len() as int));
        assert(rest[0] == resolved@[i as int]@);
        let address = resolved[i];
        if is_blocked_ip(address.ip) {
            return Err(blocked_target());
        }
        let mut seen = false;
        let mut j: usize = 0;
        while j < addresses.len()
            invariant
                j <= addresses@.len(),
                seen == (exists|k: int| 0 <= k < j && addresses@[k]@ == address@),
            decreases addresses@.len() - j,
        {
            if same_socket(&addresses[j], &address) {
                seen = true;
            }
            j = j + 1;
        }
        proof {
            let views = socket_views(addresses@);
            if seen {
                let k = choose|k: int| 0 <= k < addresses@.len() && addresses@[k]@ == address@;
                assert(views[k] == address@);
            } else {
                assert forall|k: int| 0 <= k < views.len() implies views[k] != address@ by {
                    assert(views[k] == addresses@[k]@);
                }
            }
        }
        if !seen {
            let ghost before = addresses@;
            addresses.push(address);
            assert(socket_views(addresses@) =~= socket_views(before).push(address@));
        }
        i = i + 1;
    }
    assert(safe_addresses_from(all.subrange(i as int, all.len() as int), socket_views(addresses@))
        == Ok::<Seq<(IpAddressView, u16)>, AgentToolErrorCode>(socket_views(addresses@)));
    if addresses.len() == 0 {
        return Err(resolution_failed());
    }
    Ok(addresses)
}

#[verifier::external_type_specification]
#[verifier::external_body]
pub struct ExUrl(url::Url);

/// The host of a parsed URL: a domain name or an IP literal.
pub enum UrlHost {
    Domain(String),
    Ip(IpAddress),
}

pub enum UrlHostView {
    Domain(Seq<char>),
    Ip(IpAddressView),
}

/// What the probe rules read of a parsed URL.
pub struct UrlFields {
    pub scheme: String,
    pub host: Option<UrlHost>,
    pub port: Option<u16>,
    pub username: String,
    pub has_password: bool,
}

pub struct UrlFieldsView {
    pub scheme: Seq<char>,
    pub host: Option<UrlHostView>,
    pub port: Option<u16>,
    pub username: Seq<char>,
    pub has_password: bool,
}

impl View for UrlFields {
    type V = UrlFieldsView;

    open spec fn view(&self) -> UrlFieldsView {
        UrlFieldsView {
            scheme: self.scheme@,
            host: match self.host {
                Some(UrlHost::Domain(domain)) => Some(UrlHostView::Domain(domain@)),
                Some(UrlHost::Ip(address)) => Some(UrlHostView::Ip(address@)),
                None => None,
            },
            port: self.port,
            username: self.username@,
            has_password: self.has_password,
        }
    }
}

/// The scheme, host, port (explicit or the scheme's known default), user name and password
/// presence that `url::Url::parse` finds in a text, or `None` where it refuses the text.
pub uninterp spec fn url_fields_of(text: Seq<char>) -> Option<UrlFieldsView>;

/// Parses a URL with `url::Url::parse` and reads its scheme, host, port with
/// `port_or_known_default`, user name and whether it has a password; what the parser accepts
/// and finds is named, not described.
#[verifier::external_body]
pub(crate) fn parse_url(text: &str) -> (parsed: Option<(url::Url, UrlFields)>)
    ensures
        match parsed {
            Some((_, fields)) => url_fields_of(text@) == Some(fields@),
            None => url_fields_of(text@) is None,
        },
{
    let url = url::Url::parse(text).ok()?;
    let host = match url.host() {
        Some(url::Host::Domain(domain)) => Some(UrlHost::Domain(domain.to_owned())),
        Some(url::Host::Ipv4(address)) => Some(UrlHost::Ip(IpAddress::V4(address.octets()))),
        Some(url::Host::Ipv6(address)) => Some(UrlHost::Ip(IpAddress::V6(address.segments()))),
        None => None,
    };
    let port = url.port_or_known_default();
    let (scheme, username) = (url.scheme().to_owned(), url.username().to_owned());
    let has_password = url.password().is_some();
    Some((url, UrlFields { scheme, host, port, username, has_password }))
}

/// A validated probe target: the URL text as requested, with the host and port that
/// `url::Url::parse` reads from it; the probe is sent to the URL parsed from this text.
pub struct ProbeTarget {
    pub url: String,
    pub host: UrlHost,
    pub port: Option<u16>,
    pub expected_status: Option<u16>,
    pub timeout: Duration,
}

pub open spec fn host_view(host: UrlHost) -> UrlHostView {
    match host {
        UrlHost::Domain(domain) => UrlHostView::Domain(domain@),
        UrlHost::Ip(address) => UrlHostView::Ip(address@),
    }
}

/// Whether the parsed URL is an HTTP or HTTPS URL with a host and without credentials.
pub open spec fn acceptable_url(fields: UrlFieldsView) -> bool {
    &&& (fields.scheme == "http"@ || fields.scheme == "https"@)
    &&& fields.host is Some
    &&& fields.username.len() == 0
    &&& !fields.has_password
}

pub open spec fn host_blocked(host: UrlHostView) -> bool {
    match host {
        UrlHostView::Domain(domain) => hostname_blocked(domain),
        UrlHostView::Ip(address) => ip_blocked(address),
    }
}

/// The timeout a probe runs with: the requested one, or the default.
pub open spec fn effective_timeout(timeout_ms: Option<u32>) -> u32 {
    match timeout_ms {
        Some(t) => t,
        None => NETWORK_PROBE_DEFAULT_TIMEOUT_MS,
    }
}

/// Why a probe request is refused, as a code and a message, in the order the checks run; `None`
/// when it is accepted.
pub open spec fn probe_refusal(
    url: Seq<char>,
    expected_status: Option<u16>,
    timeout_ms: Option<u32>,
) -> Option<(AgentToolErrorCode, Seq<char>)> {
    if vstd::utf8::encode_utf8(url).len() as usize > MAX_NETWORK_PROBE_URL_BYTES {
        Some((AgentToolErrorCode::InvalidRequest, "network probe URL is too long"@))
    } else if url_fields_of(url) is None || !acceptable_url(url_fields_of(url).unwrap()) {
        Some((AgentToolErrorCode::InvalidTarget, "only public HTTP and HTTPS targets are allowed"@))
    } else if expected_status matches Some(s) && !(100 <= s <= 599) {
        Some((AgentToolErrorCode::InvalidRequest, "expected_status must be between 100 and 599"@))
    } else if !(NETWORK_PROBE_MIN_TIMEOUT_MS <= effective_timeout(timeout_ms)
        <= NETWORK_PROBE_REQUEST_TIMEOUT_MS) {
        Some((AgentToolErrorCode::InvalidRequest, "timeout_ms is outside the allowed range"@))
    } else if host_blocked(url_fields_of(url).unwrap().host.unwrap()) {
        Some(
            (
                AgentToolErrorCode::TargetBlocked,
                "local, private, reserved, and special-use targets are blocked"@,
            ),
        )
    } else {
        None
    }
}

fn url_host_blocked(host: &UrlHost) -> (blocked: bool)
    ensures
        blocked == host_blocked(match host {
            UrlHost::Domain(domain) => UrlHostView::Domain(domain@),
            UrlHost::Ip(address) => UrlHostView::Ip(address@),
        }),
{
    match host {
        UrlHost::Domain(domain) => is_blocked_hostname(domain.as_str()),
        UrlHost::Ip(address) => is_blocked_ip(*address),
    }
}

/// Checks a probe request: its length, that it is a public HTTP or HTTPS URL without
/// credentials, the expected status, the timeout, and that the host is not local or reserved.
pub fn validate_probe_request(request: AgentNetworkProbeRequest) -> (result: Result<
    ProbeTarget,
    AgentToolError,
>)
    ensures
        match (result, probe_refusal(request.url@, request.expected_status, request.timeout_ms)) {
            (Ok(target), None) => target.url@ == request.url@
                && target.expected_status == request.expected_status
                && target.timeout == millis_duration(effective_timeout(request.timeout_ms) as u64)
                && Some(host_view(target.host)) == url_fields_of(request.url@).unwrap().host
                && target.port == url_fields_of(request.url@).unwrap().port,
            (Err(error), Some((code, message))) => error.code == code && error.message@ == message,
            _ => false,
        },
{
    let text: &str = request.url.as_str();
    let url_text = text.to_owned();
    if text.len() > MAX_NETWORK_PROBE_URL_BYTES {
        return Err(
            AgentToolError::new(AgentToolErrorCode::InvalidRequest, "network probe URL is too long"),
        );
    }
    let (_, fields) = match parse_url(text) {
        Some(parsed) => parsed,
        None => {
            return Err(invalid_target());
        },
    };
    let http = str_equal(fields.scheme.as_str(), "http") || str_equal(fields.scheme.as_str(), "https");
    let no_user = fields.username.as_str().is_empty();
    if !http || fields.host.is_none() || !no_user || fields.has_password {
        return Err(invalid_target());
    }
    match request.expected_status {
        Some(status) => {
            if !(100 <= status && status <= 599) {
                return Err(
                    AgentToolError::new(
                        AgentToolErrorCode::InvalidRequest,
                        "expected_status must be between 100 and 599",
                    ),
                );
            }
        },
        None => {},
    }
    let timeout_ms: u32 = match request.timeout_ms {
        Some(t) => t,
        None => NETWORK_PROBE_DEFAULT_TIMEOUT_MS,
    };
    if !(NETWORK_PROBE_MIN_TIMEOUT_MS <= timeout_ms && timeout_ms <= NETWORK_PROBE_REQUEST_TIMEOUT_MS) {
        return Err(
            AgentToolError::new(
                AgentToolErrorCode::InvalidRequest,
                "timeout_ms is outside the allowed range",
            ),
        );
    }
    let host = match fields.host {
        Some(host) => host,
        None => {
            return Err(invalid_target());
        },
    };
    if url_host_blocked(&host) {
        return Err(blocked_target());
    }
    Ok(ProbeTarget {
        url: url_text,
        host,
        port: fields.port,
        expected_status: request.expected_status,
        timeout: duration_from_millis(timeout_ms as u64),
    })
}

/// The result of a probe that got an answer: it matches when an expected status was given and
/// equals the answer.
pub fn probe_result(status: u16, expected_status: Option<u16>, latency_ms: u64) -> (result:
    AgentNetworkProbeResult)
    ensures
        result.status == status,
        result.expected_status == expected_status,
        result.matches_expected_status == (match expected_status {
            Some(expected) => Some(expected == status),
            None => None::<bool>,
        }),
        result.latency_ms == latency_ms,
{
    let matches = match expected_status {
        Some(expected) => Some(expected == status),
        None => None,
    };
    AgentNetworkProbeResult { status, expected_status, matches_expected_status: matches, latency_ms }
}

/// No address occurs twice.
pub open spec fn no_repeats(s: Seq<(IpAddressView, u16)>) -> bool {
    forall|i: int, j: int| 0 <= i < j < s.len() ==> s[i] != s[j]
}

proof fn lemma_safe_addresses_from(resolved: Seq<(IpAddressView, u16)>, taken: Seq<(IpAddressView, u16)>)
    requires
        taken.len() <= MAX_RESOLVED_ADDRESSES,
        no_repeats(taken),
        forall|k: int| 0 <= k < taken.len() ==> !ip_blocked(#[trigger] taken[k].0),
    ensures
        safe_addresses_from(resolved, taken) matches Ok(result) ==> {
            &&& result.len() <= MAX_RESOLVED_ADDRESSES
            &&& no_repeats(result)
            &&& forall|k: int| 0 <= k < result.len() ==> !ip_blocked(#[trigger] result[k].0)
        },
    decreases resolved.len(),
{
    if resolved.len() > 0 && taken.len() < MAX_RESOLVED_ADDRESSES && !ip_blocked(resolved[0].0) {
        if taken.contains(resolved[0]) {
            lemma_safe_addresses_from(resolved.drop_first(), taken);
        } else {
            let grown = taken.push(resolved[0]);
            assert forall|k: int| 0 <= k < grown.len() implies !ip_blocked(#[trigger] grown[k].0) by {
                if k < taken.len() {
                    assert(grown[k] == taken[k]);
                }
            }
            assert forall|i: int, j: int| 0 <= i < j < grown.len() implies grown[i] != grown[j] by {
                if j == taken.len() {
                    assert(grown[i] == taken[i]);
                    assert(!taken.contains(resolved[0]));
                } else {
                    assert(grown[i] == taken[i] && grown[j] == taken[j]);
                }
            }
            lemma_safe_addresses_from(resolved.drop_first(), grown);
        }
    }
}

/// The addresses a probe may connect to are all public, none occurs twice, and there are at
/// most the limit of them.
pub proof fn lemma_safe_addresses_are_public(resolved: Seq<(IpAddressView, u16)>)
    ensures
        safe_addresses(resolved) matches Ok(result) ==> {
            &&& 0 < result.len() <= MAX_RESOLVED_ADDRESSES
            &&& no_repeats(result)
            &&& forall|k: int| 0 <= k < result.len() ==> !ip_blocked(#[trigger] result[k].0)
        },
        (exists|k: int| 0 <= k < resolved.len() && ip_blocked(#[trigger] resolved[k].0))
            && resolved.len() <= MAX_RESOLVED_ADDRESSES ==> safe_addresses(resolved) is Err,
{
    lemma_safe_addresses_from(resolved, Seq::empty());
    if (exists|k: int| 0 <= k < resolved.len() && ip_blocked(#[trigger] resolved[k].0))
        && resolved.len() <= MAX_RESOLVED_ADDRESSES {
        lemma_blocked_address_fails(resolved, Seq::empty());
    }
}

proof fn lemma_blocked_address_fails(resolved: Seq<(IpAddressView, u16)>, taken: Seq<(IpAddressView, u16)>)
    requires
        exists|k: int| 0 <= k < resolved.len() && ip_blocked(#[trigger] resolved[k].0),
        taken.len() + resolved.len() <= MAX_RESOLVED_ADDRESSES,
    ensures
        safe_addresses_from(resolved, taken) is Err,
    decreases resolved.len(),
{
    if !ip_blocked(resolved[0].0) {
        let k = choose|k: int| 0 <= k < resolved.len() && ip_blocked(#[trigger] resolved[k].0);
        assert(resolved.drop_first()[k - 1] == resolved[k]);
        if taken.contains(resolved[0]) {
            lemma_blocked_address_fails(resolved.drop_first(), taken);
        } else {
            lemma_blocked_address_fails(resolved.drop_first(), taken.push(resolved[0]));
        }
    }
}

/// Where a probe connects: straight to an IP literal, or to the addresses a domain resolves to.
pub enum ProbeResolution {
    Direct(SocketAddress),
    Lookup { domain: String, port: u16 },
}

/// How a validated target is resolved: a target without a port is invalid; an IP literal is
/// connected to directly; a domain is looked up on the target's port.
pub fn probe_resolution(target: &ProbeTarget) -> (resolution: Result<ProbeResolution, AgentToolError>)
    ensures
        match target.port {
            None => resolution matches Err(e) && e.code == AgentToolErrorCode::InvalidTarget,
            Some(port) => match target.host {
                UrlHost::Ip(address) => resolution matches Ok(ProbeResolution::Direct(socket)) && socket@ == (
                address@, port),
                UrlHost::Domain(domain) => resolution matches Ok(ProbeResolution::Lookup { domain: d, port: p })
                    && d@ == domain@ && p == port,
            },
        },
{
    let port = match target.port {
        Some(port) => port,
        None => {
            return Err(invalid_target());
        },
    };
    match &target.host {
        UrlHost::Ip(address) => Ok(ProbeResolution::Direct(SocketAddress { ip: *address, port })),
        UrlHost::Domain(domain) => Ok(ProbeResolution::Lookup { domain: domain.as_str().to_owned(), port }),
    }
}

/// The error of a probe request that got no answer: a timeout, or another failure.
pub fn probe_send_error(timed_out: bool) -> (error: AgentToolError)
    ensures
        timed_out ==> error.code == AgentToolErrorCode::TimedOut,
        !timed_out ==> error.code == AgentToolErrorCode::ExecutionFailed && error.message@
            == "network probe failed"@,
{
    if timed_out {
        probe_timed_out()
    } else {
        AgentToolError::new(AgentToolErrorCode::ExecutionFailed, "network probe failed")
    }
}

/// What is left of a probe's time budget at `now_ms`, or the timeout error once it is spent.
pub fn remaining_budget(deadline_ms: u64, now_ms: u64) -> (remaining: Result<u64, AgentToolError>)
    ensures
        now_ms <= deadline_ms ==> remaining == Ok::<u64, AgentToolError>((deadline_ms - now_ms) as u64),
        now_ms > deadline_ms ==> (remaining matches Err(e) && e.code == AgentToolErrorCode::TimedOut),
{
    if now_ms > deadline_ms {
        return Err(probe_timed_out());
    }
    Ok(deadline_ms - now_ms)
}

/// The latency of a probe in whole milliseconds, saturated at the largest `u64`.
pub fn latency_millis(elapsed_ms: u128) -> (latency: u64)
    ensures
        latency == (if elapsed_ms > u64::MAX {
            u64::MAX
        } else {
            elapsed_ms as u64
        }),
{
    if elapsed_ms > u64::MAX as u128 {
        u64::MAX
    } else {
        elapsed_ms as u64
    }
}

} // verus!
