//! The small projection of the core's runtime configuration that the agent observes: the
//! routing mode and the TUN settings, with the TUN routes merged, sorted and deduplicated.
use vstd::prelude::*;

use crate::ip::{address_is_loopback, is_loopback, IpAddress, IpAddressView};
use crate::model::AgentRoutingMode;
use crate::probe::{parse_url, url_fields_of, SocketAddress};
use crate::text::{append_chars, chars_are_blank, chars_of, is_blank, str_equal};

verus! {

/// The TUN section of the core's runtime configuration.
#[derive(Debug, Clone, PartialEq, Eq)]
pub struct RuntimeTun {
    pub enable: bool,
    pub device: String,
    pub auto_route: bool,
    pub route_address: Vec<String>,
    pub inet4_route_address: Vec<String>,
    pub inet6_route_address: Vec<String>,
}

/// The part of the core's runtime configuration that the agent reads.
#[derive(Debug, Clone, PartialEq, Eq)]
pub struct ClashRuntimeConfig {
    pub mode: Option<String>,
    pub tun: Option<RuntimeTun>,
}

impl Default for RuntimeTun {
    fn default() -> (tun: Self)
        ensures
            !tun.enable,
            tun.device@.len() == 0,
            !tun.auto_route,
            tun.route_address@.len() == 0,
            tun.inet4_route_address@.len() == 0,
            tun.inet6_route_address@.len() == 0,
    {
        RuntimeTun {
            enable: false,
            device: String::new(),
            auto_route: false,
            route_address: Vec::new(),
            inet4_route_address: Vec::new(),
            inet6_route_address: Vec::new(),
        }
    }
}

impl Default for ClashRuntimeConfig {
    fn default() -> (config: Self)
        ensures
            config.mode is None,
            config.tun is None,
    {
        ClashRuntimeConfig { mode: None, tun: None }
    }
}

/// What the agent observes of the core's configuration.
#[derive(Debug, Clone, PartialEq, Eq)]
pub struct ObservedCoreConfig {
    pub routing_mode: Option<AgentRoutingMode>,
    pub tun_enabled: Option<bool>,
    pub tun_device: Option<String>,
    pub tun_auto_route: Option<bool>,
    pub tun_route_addresses: Vec<String>,
}

/// Lexicographic order on texts, character by character by code point; for UTF-8 strings this
/// is the byte order that `Ord for String` uses.
pub open spec fn text_le(a: Seq<char>, b: Seq<char>) -> bool
    decreases a.len(),
{
    if a.len() == 0 {
        true
    } else if b.len() == 0 {
        false
    } else if a[0] != b[0] {
        (a[0] as u32) < (b[0] as u32)
    } else {
        text_le(a.drop_first(), b.drop_first())
    }
}

/// The characters of each text.
pub open spec fn texts_of(texts: Seq<String>) -> Seq<Seq<char>> {
    texts.map_values(|text: String| text@)
}

/// Whether the texts are in lexicographic order.
pub open spec fn texts_sorted(texts: Seq<Seq<char>>) -> bool {
    forall|i: int, j: int| 0 <= i < j < texts.len() ==> text_le(texts[i], texts[j])
}

/// Whether `routes` is the canonical form of `input`: each distinct text once, in order.
pub open spec fn canonical_routes(routes: Seq<Seq<char>>, input: Seq<Seq<char>>) -> bool {
    &&& texts_sorted(routes)
    &&& routes.no_duplicates()
    &&& routes.to_set() == input.to_set()
}

proof fn lemma_text_le_reflexive(a: Seq<char>)
    ensures
        text_le(a, a),
    decreases a.len(),
{
    if a.len() > 0 {
        lemma_text_le_reflexive(a.drop_first());
    }
}

proof fn lemma_text_le_antisymmetric(a: Seq<char>, b: Seq<char>)
    requires
        text_le(a, b),
        text_le(b, a),
    ensures
        a == b,
    decreases a.len(),
{
    if a.len() > 0 && b.len() > 0 && a[0] == b[0] {
        lemma_text_le_antisymmetric(a.drop_first(), b.drop_first());
        assert(a =~= seq![a[0]] + a.drop_first());
        assert(b =~= seq![b[0]] + b.drop_first());
    }
}

/// Sorts the texts with `slice::sort_unstable`, by `Ord for String`.
#[verifier::external_body]
fn sort_texts(texts: &mut Vec<String>)
    ensures
        texts_of(final(texts)@).to_multiset() == texts_of(old(texts)@).to_multiset(),
        texts_sorted(texts_of(final(texts)@)),
{
    texts.sort_unstable();
}

/// Drops each text that equals the one before it.
fn dedup_sorted(texts: Vec<String>) -> (unique: Vec<String>)
    requires
        texts_sorted(texts_of(texts@)),
    ensures
        canonical_routes(texts_of(unique@), texts_of(texts@)),
{
    let ghost input = texts_of(texts@);
    let mut unique: Vec<String> = Vec::new();
    let mut i: usize = 0;
    while i < texts.len()
        invariant
            i <= texts@.len(),
            input == texts_of(texts@),
            texts_sorted(input),
            texts_sorted(texts_of(unique@)),
            texts_of(unique@).no_duplicates(),
            forall|k: int| 0 <= k < unique@.len() ==> exists|m: int| 0 <= m < i && #[trigger] texts_of(unique@)[k] == input[m],
            forall|m: int| 0 <= m < i ==> texts_of(unique@).contains(#[trigger] input[m]),
            i > 0 ==> unique@.len() > 0 && texts_of(unique@).last() == input[i - 1],
            i == 0 ==> unique@.len() == 0,
        decreases texts@.len() - i,
    {
        let ghost before = texts_of(unique@);
        let keep = if unique.len() == 0 {
            true
        } else {
            let last = unique.len() - 1;
            !str_equal(unique[last].as_str(), texts[i].as_str())
        };
        if keep {
            let text = copy_text(&texts[i]);
            unique.push(text);
            proof {
                let current = input[i as int];
                assert(texts_of(unique@) =~= before.push(current));
                assert forall|k: int| 0 <= k < before.len() implies text_le(before[k], current) && before[k] != current by {
                    let m = choose|m: int| 0 <= m < i && before[k] == input[m];
                    assert(texts_of(unique@)[k] == before[k]);
                    if before[k] == current {
                        if m < i - 1 {
                            assert(text_le(input[m], input[i - 1]));
                        } else {
                            lemma_text_le_reflexive(input[m]);
                        }
                        lemma_text_le_antisymmetric(input[i - 1], current);
                    }
                }
                assert forall|m: int| 0 <= m < i + 1 implies texts_of(unique@).contains(#[trigger] input[m]) by {
                    if m < i {
                        assert(before.contains(input[m]));
                        let k = choose|k: int| 0 <= k < before.len() && before[k] == input[m];
                        assert(texts_of(unique@)[k] == input[m]);
                    } else {
                        assert(texts_of(unique@)[before.len() as int] == input[m]);
                    }
                }
                assert forall|k: int| 0 <= k < unique@.len() implies exists|m: int|
                    0 <= m < i + 1 && #[trigger] texts_of(unique@)[k] == input[m] by {
                    if k < before.len() {
                        assert(texts_of(unique@)[k] == before[k]);
                        let m = choose|m: int| 0 <= m < i && before[k] == input[m];
                        assert(texts_of(unique@)[k] == input[m]);
                    } else {
                        assert(texts_of(unique@)[k] == input[i as int]);
                    }
                }
            }
        } else {
            proof {
                assert(texts_of(unique@).last() == input[i as int]);
                assert forall|m: int| 0 <= m < i + 1 implies texts_of(unique@).contains(#[trigger] input[m]) by {
                    if m == i {
                        assert(texts_of(unique@)[texts_of(unique@).len() - 1] == input[m]);
                    }
                }
                assert forall|k: int| 0 <= k < unique@.len() implies exists|m: int|
                    0 <= m < i + 1 && #[trigger] texts_of(unique@)[k] == input[m] by {
                    let m = choose|m: int| 0 <= m < i && texts_of(unique@)[k] == input[m];
                }
            }
        }
        i = i + 1;
    }
    proof {
        let out = texts_of(unique@);
        assert forall|t: Seq<char>| out.to_set().contains(t) <==> input.to_set().contains(t) by {
            if out.to_set().contains(t) {
                let k = choose|k: int| 0 <= k < out.len() && out[k] == t;
                let m = choose|m: int| 0 <= m < i && #[trigger] out[k] == input[m];
                assert(input.contains(t));
            }
            if input.to_set().contains(t) {
                let m = choose|m: int| 0 <= m < input.len() && input[m] == t;
                assert(out.contains(input[m]));
            }
        }
        assert(out.to_set() =~= input.to_set());
    }
    unique
}

fn copy_text(text: &String) -> (copy: String)
    ensures
        copy@ == text@,
{
    text.as_str().to_owned()
}

/// The TUN routes, in canonical form: all route lists merged, sorted and deduplicated.
fn canonical_tun_routes(
    route_address: Vec<String>,
    inet4_route_address: Vec<String>,
    inet6_route_address: Vec<String>,
) -> (routes: Vec<String>)
    ensures
        canonical_routes(
            texts_of(routes@),
            texts_of(route_address@ + inet4_route_address@ + inet6_route_address@),
        ),
{
    let ghost all = route_address@ + inet4_route_address@ + inet6_route_address@;
    let mut routes = route_address;
    let mut inet4 = inet4_route_address;
    let mut inet6 = inet6_route_address;
    routes.append(&mut inet4);
    routes.append(&mut inet6);
    assert(routes@ =~= all);
    let ghost merged = routes@;
    sort_texts(&mut routes);
    proof {
        let sorted = texts_of(routes@);
        assert forall|t: Seq<char>| sorted.to_set().contains(t) <==> texts_of(merged).to_set().contains(t) by {
            sorted.to_multiset_ensures();
            texts_of(merged).to_multiset_ensures();
            assert(sorted.to_multiset() == texts_of(merged).to_multiset());
            assert(sorted.contains(t) <==> sorted.to_multiset().count(t) > 0);
            assert(texts_of(merged).contains(t) <==> texts_of(merged).to_multiset().count(t) > 0);
        }
        assert(sorted.to_set() =~= texts_of(merged).to_set());
    }
    dedup_sorted(routes)
}

/// What the agent observes of a runtime configuration.
pub open spec fn observed_core(config: ClashRuntimeConfig, observed: ObservedCoreConfig) -> bool {
    &&& observed.routing_mode == match config.mode {
        Some(mode) => AgentRoutingMode::spec_parse(mode@),
        None => None,
    }
    &&& match config.tun {
        None => {
            &&& observed.tun_enabled is None
            &&& observed.tun_device is None
            &&& observed.tun_auto_route is None
            &&& observed.tun_route_addresses@.len() == 0
        },
        Some(tun) => {
            &&& observed.tun_enabled == Some(tun.enable)
            &&& observed.tun_auto_route == Some(tun.auto_route)
            &&& if is_blank(tun.device@) {
                observed.tun_device is None
            } else {
                observed.tun_device matches Some(device) && device@ == tun.device@
            }
            &&& canonical_routes(
                texts_of(observed.tun_route_addresses@),
                texts_of(tun.route_address@ + tun.inet4_route_address@ + tun.inet6_route_address@),
            )
        },
    }
}

/// Projects the runtime configuration onto what the agent observes.
pub fn project_core_config(config: ClashRuntimeConfig) -> (observed: ObservedCoreConfig)
    ensures
        observed_core(config, observed),
{
    let routing_mode = match &config.mode {
        Some(mode) => AgentRoutingMode::parse(mode.as_str()),
        None => None,
    };
    match config.tun {
        None => ObservedCoreConfig {
            routing_mode,
            tun_enabled: None,
            tun_device: None,
            tun_auto_route: None,
            tun_route_addresses: Vec::new(),
        },
        Some(tun) => {
            let device = if chars_are_blank(&chars_of(tun.device.as_str())) {
                None
            } else {
                Some(tun.device)
            };
            let routes = canonical_tun_routes(
                tun.route_address,
                tun.inet4_route_address,
                tun.inet6_route_address,
            );
            ObservedCoreConfig {
                routing_mode,
                tun_enabled: Some(tun.enable),
                tun_device: device,
                tun_auto_route: Some(tun.auto_route),
                tun_route_addresses: routes,
            }
        },
    }
}

/// The socket address that `core::net` parses from a text with `str::parse::<SocketAddr>`, if
/// any.
pub uninterp spec fn std_parsed_socket(text: Seq<char>) -> Option<(IpAddressView, u16)>;

/// Parses an IP address and port with the `FromStr for SocketAddr` of `core::net`.
#[verifier::external_body]
fn parse_socket_address(text: &str) -> (parsed: Option<SocketAddress>)
    ensures
        match parsed {
            Some(address) => std_parsed_socket(text@) == Some(address@),
            None => std_parsed_socket(text@) is None,
        },
{
    match text.parse::<core::net::SocketAddr>() {
        Ok(core::net::SocketAddr::V4(address)) => Some(
            SocketAddress { ip: IpAddress::V4(address.ip().octets()), port: address.port() },
        ),
        Ok(core::net::SocketAddr::V6(address)) => Some(
            SocketAddress { ip: IpAddress::V6(address.ip().segments()), port: address.port() },
        ),
        Err(_) => None,
    }
}

/// The configuration URL of a controller at `server`.
pub open spec fn controller_configs_text(server: Seq<char>) -> Seq<char> {
    "http://"@ + server + "/configs"@
}

/// Whether the controller at `server` may be asked for its configuration: it must be a socket
/// address on a loopback IP, and its configuration URL must parse.
pub open spec fn controller_accepted(server: Seq<char>) -> bool {
    &&& std_parsed_socket(server) matches Some((ip, _)) && is_loopback(ip)
    &&& url_fields_of(controller_configs_text(server)) is Some
}

/// The configuration URL of the controller at `server`, which must be a loopback socket address
/// so that the controller credential never leaves this host.
pub fn loopback_controller_url(server: &str) -> (result: Result<url::Url, ()>)
    ensures
        result is Ok <==> controller_accepted(server@),
{
    let address = match parse_socket_address(server) {
        Some(address) => address,
        None => {
            return Err(());
        },
    };
    if !address_is_loopback(&address.ip) {
        return Err(());
    }
    let mut text = String::new();
    append_chars(&mut text, "http://");
    append_chars(&mut text, server);
    append_chars(&mut text, "/configs");
    assert(text@ == controller_configs_text(server@));
    match parse_url(text.as_str()) {
        Some((url, _)) => Ok(url),
        None => Err(()),
    }
}

} // verus!
