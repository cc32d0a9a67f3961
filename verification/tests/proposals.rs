use chimera_agent::confirmation::proposal_confirmation_message;
use chimera_agent::digest::{is_lower_hex, proposal_reference};
use chimera_agent::error::AgentCommandError;
use chimera_agent::model::{
    AgentActionRequest, AgentActionRisk, AgentImpact, AgentProposal, AgentRoutingMode,
    AgentStateChange, AgentStateField, AgentStateValue,
};
use chimera_agent::planning::ActionPreconditions;
use chimera_agent::proposals::{
    cancel, check_pending, cleanup_store, enforce_store_limits, insert_proposal,
    is_fixed_lower_hex, reserve_proposal_slot, take_owned_proposal, take_proposal, PendingEntry,
    PendingProposal, ProposalStore, MAX_PENDING_PROPOSALS, MIN_PROPOSAL_INTERVAL_MS,
    PROPOSAL_TTL_MS,
};

const NOW: u64 = 1_000_000;

fn pending(owner_label: &str, expires_at: u64) -> PendingProposal {
    PendingProposal {
        proposal: AgentProposal {
            id: "proposal".into(),
            digest: "digest".into(),
            action: AgentActionRequest::SetRoutingMode { mode: AgentRoutingMode::Global },
            risk: AgentActionRisk::TrafficChange,
            impacts: Vec::new(),
            changes: Vec::new(),
            snapshot_revision: "revision".into(),
            created_at: 0,
            expires_at: 1,
            requires_confirmation: true,
        },
        preconditions: ActionPreconditions::SetRoutingMode {
            before: AgentRoutingMode::Rule,
            core_state_changed_at: 0,
        },
        owner_label: owner_label.into(),
        expires_at,
    }
}

fn entry(id: &str, pending: PendingProposal) -> PendingEntry {
    PendingEntry { id: id.into(), pending }
}

fn contains_key(store: &ProposalStore, id: &str) -> bool {
    store.pending.iter().any(|entry| entry.id == id)
}

fn cleanup_scenario() {
    let now = NOW;
    let mut store = ProposalStore::new();
    for index in 0..4 {
        let expires_at = if index == 0 { now - 1 } else { now + 30_000 };
        store.pending.push(entry(&index.to_string(), pending("main", expires_at)));
    }
    cleanup_store(&mut store, now);
    assert_eq!(store.pending.len(), 3);
    assert!(enforce_store_limits(&store, "main").is_ok());
    store.pending.push(entry("fourth", pending("main", now + 30_000)));
    assert!(enforce_store_limits(&store, "main").is_err());
}

#[test]
fn actions_proposal_cleanup_uses_monotonic_expiry_and_enforces_owner_limit() {
    cleanup_scenario();
}

#[test]
fn actions_tests_proposal_cleanup_uses_monotonic_expiry_and_enforces_owner_limit() {
    cleanup_scenario();
}

#[test]
fn invalid_proposal_references_do_not_consume_a_valid_pending_proposal() {
    let now = NOW;
    let mut store = ProposalStore::new();
    let mut valid = pending("owner", now + 30_000);
    valid.proposal.digest = "correct".into();
    store.pending.push(entry("proposal", valid));

    assert!(matches!(
        take_owned_proposal(&mut store, "owner", "proposal", "wrong"),
        Err(AgentCommandError::ProposalDigestMismatch)
    ));
    assert!(contains_key(&store, "proposal"));

    assert!(matches!(
        take_owned_proposal(&mut store, "other", "proposal", "correct"),
        Err(AgentCommandError::ProposalNotFound)
    ));
    assert!(contains_key(&store, "proposal"));

    let consumed = take_owned_proposal(&mut store, "owner", "proposal", "correct")
        .expect("correct reference consumes proposal once");
    assert_eq!(consumed.owner_label, "owner");
    assert!(!contains_key(&store, "proposal"));
}

#[test]
fn proposal_references_accept_only_fixed_lower_hex() {
    assert!(is_fixed_lower_hex("0123456789abcdef0123456789abcdef", 32));
    assert!(is_fixed_lower_hex(&"a".repeat(64), 64));

    for invalid in [
        "",
        "0123456789abcdef0123456789abcde",
        "0123456789abcdef0123456789abcdef0",
        "0123456789ABCDEF0123456789ABCDEF",
        "0123456789abcdef0123456789abcdeg",
    ] {
        assert!(!is_fixed_lower_hex(invalid, 32), "{invalid}");
    }
}

#[test]
fn audit_reference_is_fixed_lower_hex_and_hides_raw_proposal_id() {
    let proposal_id = "proposal-token-canary";
    let reference = proposal_reference(proposal_id);

    assert_eq!(reference.len(), 32);
    assert!(reference.bytes().all(|byte| byte.is_ascii_digit() || (b'a'..=b'f').contains(&byte)));
    assert!(!reference.contains(proposal_id));
    assert_eq!(reference, proposal_reference(proposal_id));
    assert!(is_lower_hex(&reference, 32));
}

#[test]
fn audit_reference_is_the_leading_half_of_the_sha256_digest() {
    // SHA-256("abc") begins with ba7816bf8f01cfea414140de5dae2223.
    assert_eq!(proposal_reference("abc"), "ba7816bf8f01cfea414140de5dae2223");
}

fn confirmation_proposal() -> AgentProposal {
    AgentProposal {
        id: "a".repeat(32),
        digest: "b".repeat(64),
        action: AgentActionRequest::SetRoutingMode { mode: AgentRoutingMode::Global },
        risk: AgentActionRisk::TrafficChange,
        impacts: vec![
            AgentImpact::ExistingConnectionsMayChange,
            AgentImpact::TrafficMayBypassProxy,
        ],
        changes: vec![
            AgentStateChange {
                field: AgentStateField::RoutingMode,
                before: AgentStateValue::Rule,
                after: AgentStateValue::Global,
            },
            AgentStateChange {
                field: AgentStateField::TelemetryConnector,
                before: AgentStateValue::Connected,
                after: AgentStateValue::Disconnected,
            },
        ],
        snapshot_revision: "c".repeat(64),
        created_at: 1,
        expires_at: 2,
        requires_confirmation: true,
    }
}

#[test]
fn native_confirmation_discloses_all_closed_risks_changes_and_impacts() {
    let message = proposal_confirmation_message(&confirmation_proposal());
    for expected in [
        "risk: traffic_change",
        "- routing_mode: rule -> global",
        "- telemetry_connector: connected -> disconnected",
        "- existing_connections_may_change",
        "- traffic_may_bypass_proxy",
    ] {
        assert!(message.contains(expected), "missing {expected}: {message}");
    }
}

#[test]
fn confirmation_discloses_risk_all_changes_and_impacts() {
    let mut proposal = confirmation_proposal();
    proposal.id = "proposal".into();
    proposal.digest = "digest".into();
    proposal.snapshot_revision = "revision".into();
    proposal.created_at = 0;
    proposal.expires_at = 1;
    let message = proposal_confirmation_message(&proposal);
    for expected in [
        "risk: traffic_change",
        "- routing_mode: rule -> global",
        "- telemetry_connector: connected -> disconnected",
        "- existing_connections_may_change",
        "- traffic_may_bypass_proxy",
    ] {
        assert!(message.contains(expected), "missing {expected}: {message}");
    }
}

#[test]
fn confirmation_text_is_exact_and_omits_an_empty_impact_heading() {
    let mut proposal = confirmation_proposal();
    assert_eq!(
        proposal_confirmation_message(&proposal),
        "Confirm Chimera network change\nrisk: traffic_change\nchanges:\n\
         - routing_mode: rule -> global\n- telemetry_connector: connected -> disconnected\n\
         impacts:\n- existing_connections_may_change\n- traffic_may_bypass_proxy"
    );
    proposal.impacts.clear();
    proposal.changes.clear();
    assert_eq!(
        proposal_confirmation_message(&proposal),
        "Confirm Chimera network change\nrisk: traffic_change\nchanges:"
    );
}

#[test]
fn rate_limit_and_owner_share_refuse_new_proposals() {
    let mut store = ProposalStore::new();
    assert!(reserve_proposal_slot(&mut store, "main", NOW).is_ok());
    assert_eq!(
        reserve_proposal_slot(&mut store, "main", NOW + MIN_PROPOSAL_INTERVAL_MS - 1),
        Err(AgentCommandError::ProposalRateLimited)
    );
    assert!(reserve_proposal_slot(&mut store, "main", NOW + MIN_PROPOSAL_INTERVAL_MS).is_ok());
    assert!(reserve_proposal_slot(&mut store, "other", NOW).is_ok());

    for index in 0..4 {
        let id = format!("p{index}");
        assert!(insert_proposal(&mut store, id, pending("main", NOW + 30_000), NOW).is_ok());
    }
    assert_eq!(
        insert_proposal(&mut store, "p4".into(), pending("main", NOW + 30_000), NOW),
        Err(AgentCommandError::ProposalLimitReached)
    );
    assert_eq!(
        reserve_proposal_slot(&mut store, "main", NOW + 10_000),
        Err(AgentCommandError::ProposalLimitReached)
    );
    assert!(insert_proposal(&mut store, "q".into(), pending("other", NOW + 30_000), NOW).is_ok());
}

#[test]
fn a_full_store_refuses_every_owner_until_proposals_lapse() {
    let mut store = ProposalStore::new();
    for index in 0..MAX_PENDING_PROPOSALS {
        let owner = format!("owner{}", index / 2);
        assert!(
            insert_proposal(&mut store, format!("p{index}"), pending(&owner, NOW + 1_000), NOW)
                .is_ok()
        );
    }
    assert_eq!(
        insert_proposal(&mut store, "new".into(), pending("fresh", NOW + 1_000), NOW),
        Err(AgentCommandError::ProposalLimitReached)
    );
    assert!(
        insert_proposal(&mut store, "new".into(), pending("fresh", NOW + 5_000), NOW + 1_000)
            .is_ok()
    );
    assert_eq!(store.pending.len(), 1);
}

#[test]
fn cancel_withdraws_only_the_owners_proposal() {
    let mut store = ProposalStore::new();
    assert!(insert_proposal(&mut store, "id".into(), pending("owner", NOW + 1_000), NOW).is_ok());
    assert!(!cancel(&mut store, "other", "id"));
    assert!(contains_key(&store, "id"));
    assert!(cancel(&mut store, "owner", "id"));
    assert!(!cancel(&mut store, "owner", "id"));
    assert!(matches!(
        take_proposal(&mut store, "owner", "id"),
        Err(AgentCommandError::ProposalNotFound)
    ));
}

#[test]
fn inserting_under_an_existing_id_replaces_it() {
    let mut store = ProposalStore::new();
    assert!(insert_proposal(&mut store, "id".into(), pending("a", NOW + 1_000), NOW).is_ok());
    assert!(insert_proposal(&mut store, "id".into(), pending("b", NOW + 2_000), NOW).is_ok());
    assert_eq!(store.pending.len(), 1);
    assert_eq!(store.pending[0].pending.owner_label, "b");
}

#[test]
fn pending_checks_digest_before_expiry() {
    let mut proposal = pending("owner", NOW + 10);
    proposal.proposal.digest = "digest".into();
    assert_eq!(check_pending(&proposal, "digest", NOW), Ok(()));
    assert_eq!(
        check_pending(&proposal, "other", NOW + 10),
        Err(AgentCommandError::ProposalDigestMismatch)
    );
    assert_eq!(check_pending(&proposal, "digest", NOW + 10), Err(AgentCommandError::ProposalExpired));
}

#[test]
fn owner_stamps_are_forgotten_after_the_proposal_lifetime() {
    let mut store = ProposalStore::new();
    assert!(reserve_proposal_slot(&mut store, "main", NOW).is_ok());
    cleanup_store(&mut store, NOW + PROPOSAL_TTL_MS - 1);
    assert_eq!(store.last_proposed_at.len(), 1);
    cleanup_store(&mut store, NOW + PROPOSAL_TTL_MS);
    assert!(store.last_proposed_at.is_empty());
}
