//! The cache in front of a host connectivity probe: a snapshot is served until its time to live
//! runs out, and a snapshot that could not decide anything lives shorter than one that did.
//!
//! Instants are milliseconds on a monotonic clock that the caller reads.
use vstd::prelude::*;

use crate::model::{AgentHostConnectivityReason, AgentHostConnectivitySnapshot, AgentHostConnectivityStatus};

verus! {

/// How long a decided snapshot is served, in milliseconds.
pub const SUCCESS_CACHE_TTL_MS: u64 = 10_000;

/// How long an indeterminate snapshot is served, in milliseconds.
pub const FAILURE_CACHE_TTL_MS: u64 = 2_000;

/// Whether two snapshots hold the same values.
pub open spec fn same_snapshot(a: AgentHostConnectivitySnapshot, b: AgentHostConnectivitySnapshot) -> bool {
    &&& a.status == b.status
    &&& a.active_interface_kind == b.active_interface_kind
    &&& a.link_up == b.link_up
    &&& a.ipv4 == b.ipv4
    &&& a.ipv6 == b.ipv6
    &&& a.dns_configured == b.dns_configured
    &&& a.dns_resolves == b.dns_resolves
    &&& a.captive_portal_suspected == b.captive_portal_suspected
    &&& a.reasons@ == b.reasons@
}

fn copy_reasons(reasons: &Vec<AgentHostConnectivityReason>) -> (copy: Vec<AgentHostConnectivityReason>)
    ensures
        copy@ == reasons@,
{
    let mut copy: Vec<AgentHostConnectivityReason> = Vec::new();
    let mut i: usize = 0;
    while i < reasons.len()
        invariant
            i <= reasons@.len(),
            copy@ == reasons@.take(i as int),
        decreases reasons@.len() - i,
    {
        copy.push(reasons[i]);
        assert(reasons@.take(i + 1) =~= reasons@.take(i as int).push(reasons@[i as int]));
        i = i + 1;
    }
    assert(reasons@.take(reasons@.len() as int) =~= reasons@);
    copy
}

/// A copy of a snapshot.
pub fn copy_snapshot(snapshot: &AgentHostConnectivitySnapshot) -> (copy: AgentHostConnectivitySnapshot)
    ensures
        same_snapshot(copy, *snapshot),
{
    AgentHostConnectivitySnapshot {
        status: snapshot.status,
        active_interface_kind: snapshot.active_interface_kind,
        link_up: snapshot.link_up,
        ipv4: snapshot.ipv4,
        ipv6: snapshot.ipv6,
        dns_configured: snapshot.dns_configured,
        dns_resolves: snapshot.dns_resolves,
        captive_portal_suspected: snapshot.captive_portal_suspected,
        reasons: copy_reasons(&snapshot.reasons),
    }
}

/// A cached snapshot and the instant from which it is no longer served.
pub struct CachedConnectivity {
    pub snapshot: AgentHostConnectivitySnapshot,
    pub expires_at_ms: u64,
}

/// The time to live of a snapshot: the failure one for an indeterminate snapshot, the success
/// one otherwise.
pub open spec fn cache_ttl(
    snapshot: AgentHostConnectivitySnapshot,
    success_ttl_ms: u64,
    failure_ttl_ms: u64,
) -> u64 {
    if snapshot.status == AgentHostConnectivityStatus::Indeterminate {
        failure_ttl_ms
    } else {
        success_ttl_ms
    }
}

/// What a cache entry serves at `now_ms`: its snapshot while it has not expired, else nothing.
pub open spec fn served(entry: Option<CachedConnectivity>, now_ms: u64) -> Option<AgentHostConnectivitySnapshot> {
    match entry {
        Some(cached) => if cached.expires_at_ms > now_ms {
            Some(cached.snapshot)
        } else {
            None
        },
        None => None,
    }
}

/// Whether a cached snapshot, if any, holds the same values as the one expected.
pub open spec fn serves_same(result: Option<AgentHostConnectivitySnapshot>, expected: Option<AgentHostConnectivitySnapshot>) -> bool {
    match (result, expected) {
        (Some(a), Some(b)) => same_snapshot(a, b),
        (None, None) => true,
        _ => false,
    }
}

/// The single snapshot cache of a connectivity adapter.
pub struct ConnectivityCache {
    pub entry: Option<CachedConnectivity>,
}

impl ConnectivityCache {
    /// An empty cache.
    pub fn new() -> (cache: ConnectivityCache)
        ensures
            cache.entry is None,
    {
        ConnectivityCache { entry: None }
    }

    /// The cached snapshot, if it is still fresh at `now_ms`.
    pub fn cached_snapshot(&self, now_ms: u64) -> (snapshot: Option<AgentHostConnectivitySnapshot>)
        ensures
            serves_same(snapshot, served(self.entry, now_ms)),
    {
        match &self.entry {
            Some(cached) => {
                if cached.expires_at_ms > now_ms {
                    Some(copy_snapshot(&cached.snapshot))
                } else {
                    None
                }
            },
            None => None,
        }
    }

    /// Caches `snapshot` taken at `now_ms`, replacing what was cached; it expires after the
    /// failure time to live when it is indeterminate and after the success one otherwise.
    pub fn store_cached_snapshot(
        &mut self,
        snapshot: AgentHostConnectivitySnapshot,
        now_ms: u64,
        success_ttl_ms: u64,
        failure_ttl_ms: u64,
    )
        requires
            now_ms + cache_ttl(snapshot, success_ttl_ms, failure_ttl_ms) <= u64::MAX,
        ensures
            final(self).entry == Some(
                CachedConnectivity {
                    snapshot,
                    expires_at_ms: (now_ms + cache_ttl(snapshot, success_ttl_ms, failure_ttl_ms)) as u64,
                },
            ),
    {
        let ttl = if snapshot.status == AgentHostConnectivityStatus::Indeterminate {
            failure_ttl_ms
        } else {
            success_ttl_ms
        };
        self.entry = Some(CachedConnectivity { snapshot, expires_at_ms: now_ms + ttl });
    }
}

/// A snapshot stored at `stored_at_ms` is served exactly until its time to live has run out,
/// and that time to live is the failure one precisely for indeterminate snapshots.
pub proof fn lemma_stored_snapshot_is_served_until_it_expires(
    snapshot: AgentHostConnectivitySnapshot,
    stored_at_ms: u64,
    success_ttl_ms: u64,
    failure_ttl_ms: u64,
    now_ms: u64,
)
    requires
        stored_at_ms + cache_ttl(snapshot, success_ttl_ms, failure_ttl_ms) <= u64::MAX,
    ensures
        ({
            let entry = CachedConnectivity {
                snapshot,
                expires_at_ms: (stored_at_ms + cache_ttl(snapshot, success_ttl_ms, failure_ttl_ms)) as u64,
            };
            &&& now_ms < stored_at_ms + cache_ttl(snapshot, success_ttl_ms, failure_ttl_ms) ==> served(Some(entry), now_ms)
                == Some(snapshot)
            &&& now_ms >= stored_at_ms + cache_ttl(snapshot, success_ttl_ms, failure_ttl_ms) ==> served(Some(entry), now_ms)
                is None
        }),
        (cache_ttl(snapshot, success_ttl_ms, failure_ttl_ms) == failure_ttl_ms) <== (snapshot.status
            == AgentHostConnectivityStatus::Indeterminate),
        (cache_ttl(snapshot, success_ttl_ms, failure_ttl_ms) == success_ttl_ms) <== (snapshot.status
            != AgentHostConnectivityStatus::Indeterminate),
{
}

} // verus!
