use chimera_agent::connectivity_cache::{ConnectivityCache, FAILURE_CACHE_TTL_MS, SUCCESS_CACHE_TTL_MS};
use chimera_agent::host_connectivity::{
    diagnose_host_connectivity, unavailable_host_connectivity, HostConnectivityEvidence,
};
use chimera_agent::model::{AgentHostConnectivitySnapshot, AgentHostConnectivityStatus};

fn healthy_ipv4_snapshot() -> AgentHostConnectivitySnapshot {
    diagnose_host_connectivity(HostConnectivityEvidence {
        wireless_present: true,
        wireless_connected: true,
        ipv4_usable_address: true,
        ipv4_default_route: true,
        ipv4_internet_reachable: Some(true),
        dns_configured: Some(true),
        dns_resolves: Some(true),
        captive_portal_suspected: Some(false),
        probe_complete: true,
        ..HostConnectivityEvidence::default()
    })
}

fn store(cache: &mut ConnectivityCache, snapshot: AgentHostConnectivitySnapshot, now: u64) {
    cache.store_cached_snapshot(snapshot, now, SUCCESS_CACHE_TTL_MS, FAILURE_CACHE_TTL_MS);
}

#[test]
fn cache_uses_shorter_ttl_for_failed_results_and_refreshes_after_expiry() {
    let mut cache = ConnectivityCache::new();
    let now = 1_000_u64;
    let failed = unavailable_host_connectivity();
    store(&mut cache, failed.clone(), now);
    assert_eq!(
        cache.cached_snapshot(now + FAILURE_CACHE_TTL_MS / 2).map(|value| value.status),
        Some(failed.status)
    );
    assert!(cache.cached_snapshot(now + FAILURE_CACHE_TTL_MS).is_none());

    let healthy = healthy_ipv4_snapshot();
    store(&mut cache, healthy.clone(), now);
    assert_eq!(
        cache.cached_snapshot(now + 5_000).map(|value| value.status),
        Some(healthy.status)
    );
    assert!(cache.cached_snapshot(now + SUCCESS_CACHE_TTL_MS).is_none());
}

#[test]
fn empty_cache_serves_nothing_and_a_hit_is_a_full_copy() {
    let mut cache = ConnectivityCache::new();
    assert!(cache.cached_snapshot(0).is_none());
    let healthy = healthy_ipv4_snapshot();
    assert_eq!(healthy.status, AgentHostConnectivityStatus::OnlineIpv4Only);
    store(&mut cache, healthy.clone(), 0);
    assert_eq!(cache.cached_snapshot(SUCCESS_CACHE_TTL_MS - 1), Some(healthy));
}
