use chimera_agent::autonomy::{
    AgentAutonomyPolicyRequest, AgentAutonomyPolicyResult, AgentAutonomyPolicyStatus,
    AgentAutonomyPolicyStore, AgentAutonomyScope, AUTONOMY_POLICY_SCHEMA_VERSION,
};
use chimera_agent::model::AgentActionKind;

fn request() -> AgentAutonomyPolicyRequest {
    AgentAutonomyPolicyRequest {
        schema_version: AUTONOMY_POLICY_SCHEMA_VERSION,
        scope: AgentAutonomyScope::CurrentDesktopSession,
        allowlist: vec![AgentActionKind::ReconnectTelemetry],
        duration_seconds: 60,
        max_actions: 2,
    }
}

fn store() -> AgentAutonomyPolicyStore {
    AgentAutonomyPolicyStore::new([0; 32])
}

#[test]
fn policy_is_memory_only_expiring_and_revocable() {
    let mut store = store();
    let AgentAutonomyPolicyResult::Authorized { policy } = store.authorize(request(), 100) else {
        panic!("expected authorization");
    };
    assert_eq!(policy.expires_at, 160);
    assert_eq!(store.snapshot(161).status, AgentAutonomyPolicyStatus::Expired);
    let _ = store.authorize(request(), 200);
    assert_eq!(store.revoke(201).status, AgentAutonomyPolicyStatus::Revoked);
    assert_eq!(store.snapshot(202).status, AgentAutonomyPolicyStatus::Revoked);
}

#[test]
fn invalid_requests_fail_closed() {
    let mut store = store();
    for (request, reason) in [
        (
            AgentAutonomyPolicyRequest {
                schema_version: 2,
                ..request()
            },
            AgentAutonomyPolicyStatus::SchemaVersionMismatch,
        ),
        (
            AgentAutonomyPolicyRequest {
                allowlist: vec![],
                ..request()
            },
            AgentAutonomyPolicyStatus::EmptyAllowlist,
        ),
        (
            AgentAutonomyPolicyRequest {
                allowlist: vec![AgentActionKind::StartCore],
                ..request()
            },
            AgentAutonomyPolicyStatus::ActionNotAllowed,
        ),
        (
            AgentAutonomyPolicyRequest {
                duration_seconds: 1_801,
                ..request()
            },
            AgentAutonomyPolicyStatus::DurationOutOfRange,
        ),
        (
            AgentAutonomyPolicyRequest {
                max_actions: 33,
                ..request()
            },
            AgentAutonomyPolicyStatus::ActionBudgetOutOfRange,
        ),
    ] {
        assert_eq!(
            store.authorize(request, 100),
            AgentAutonomyPolicyResult::Rejected { reason }
        );
    }
}

#[test]
fn budget_and_single_flight_fail_closed() {
    let mut store = store();
    let _ = store.authorize(request(), 100);
    let first = store
        .try_acquire(AgentActionKind::ReconnectTelemetry, 101)
        .expect("first lease");
    assert_eq!(first.generation, 1);
    assert!(matches!(
        store.try_acquire(AgentActionKind::ReconnectTelemetry, 101),
        Err(AgentAutonomyPolicyStatus::ActionInFlight)
    ));
    store.release(first);
    let second = store
        .try_acquire(AgentActionKind::ReconnectTelemetry, 102)
        .expect("second lease");
    store.release(second);
    assert!(matches!(
        store.try_acquire(AgentActionKind::ReconnectTelemetry, 103),
        Err(AgentAutonomyPolicyStatus::ActionBudgetExhausted)
    ));
}

#[test]
fn session_change_invalidates_the_policy() {
    let mut store = store();
    let _ = store.authorize(request(), 100);
    store.replace_session_nonce([7; 32]);
    assert_eq!(
        store.snapshot(101).status,
        AgentAutonomyPolicyStatus::SessionMismatch
    );
    assert!(matches!(
        store.try_acquire(AgentActionKind::ReconnectTelemetry, 101),
        Err(AgentAutonomyPolicyStatus::SessionMismatch)
    ));
}

#[test]
fn a_fresh_store_is_disabled_and_allows_nothing() {
    let mut store = store();
    let snapshot = store.snapshot(0);
    assert!(!snapshot.enabled);
    assert_eq!(snapshot.status, AgentAutonomyPolicyStatus::Disabled);
    assert_eq!(snapshot.generation, 0);
    assert!(store
        .try_acquire(AgentActionKind::ReconnectTelemetry, 0)
        .is_err());
    assert!(matches!(
        store.try_acquire(AgentActionKind::StartCore, 0),
        Err(AgentAutonomyPolicyStatus::ActionNotAllowed)
    ));
}
