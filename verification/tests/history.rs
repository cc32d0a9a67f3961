use std::collections::VecDeque;

use chimera_agent::digest::{is_lower_hex, proposal_reference};
use chimera_agent::error::AgentAuditOutcome;
use chimera_agent::history::{
    normalize_history_document, record_audit, trim, AgentAuditHistoryEntry,
    AgentDiagnosticHistoryEntry, AgentHistoryDocument, MAX_AUDIT_HISTORY,
};
use chimera_agent::model::{
    AgentActionKind, AgentCoreState, AgentFindingCode, AgentHealth, AgentProbeCode,
    AgentServiceState,
};

#[test]
fn trim_keeps_newest_entries() {
    let mut entries = VecDeque::from([1, 2, 3, 4]);
    trim(&mut entries, 2);
    assert_eq!(entries, VecDeque::from([3, 4]));
}

#[test]
fn trim_keeps_only_the_newest_entries() {
    let mut entries = VecDeque::from([1, 2, 3, 4]);
    trim(&mut entries, 2);
    assert_eq!(entries, VecDeque::from([3, 4]));
}

#[test]
fn trim_leaves_a_short_history_alone() {
    let mut entries = VecDeque::from([1, 2]);
    trim(&mut entries, 5);
    assert_eq!(entries, VecDeque::from([1, 2]));
}

fn diagnostic(captured_at: i64, revision: &str, health: AgentHealth) -> AgentDiagnosticHistoryEntry {
    AgentDiagnosticHistoryEntry {
        schema_version: 1,
        captured_at,
        revision: revision.into(),
        health,
        core_state: AgentCoreState::Running,
        service_state: AgentServiceState::Running,
        finding_codes: vec![],
        probe_failure_codes: vec![],
    }
}

fn audit(recorded_at: i64, proposal_id: &str, revision: &str) -> AgentAuditHistoryEntry {
    AgentAuditHistoryEntry {
        schema_version: 1,
        recorded_at,
        proposal_id: proposal_id.into(),
        action: AgentActionKind::RestartCore,
        snapshot_revision: revision.into(),
        outcome: AgentAuditOutcome::Verified,
    }
}

#[test]
fn history_identifiers_are_fixed_lower_hex_and_legacy_ids_are_hashed() {
    let reference = proposal_reference("legacy-proposal-token-canary");
    assert!(is_lower_hex(&reference, 32));
    assert!(!reference.contains("token-canary"));

    let valid_revision = "a".repeat(64);
    let mut document = AgentHistoryDocument {
        diagnostics: VecDeque::from([
            diagnostic(1, &valid_revision, AgentHealth::Healthy),
            AgentDiagnosticHistoryEntry {
                core_state: AgentCoreState::Stopped,
                service_state: AgentServiceState::Unknown,
                ..diagnostic(2, "subscription-url-canary", AgentHealth::Critical)
            },
        ]),
        audits: VecDeque::from([
            audit(1, "legacy-proposal-token-canary", &valid_revision),
            AgentAuditHistoryEntry {
                outcome: AgentAuditOutcome::ActionFailed,
                ..audit(2, "secret-canary", "connection-target-canary")
            },
        ]),
    };

    normalize_history_document(&mut document);

    assert_eq!(document.diagnostics.len(), 1);
    assert_eq!(document.audits.len(), 1);
    assert_eq!(document.audits[0].proposal_id, reference);
    for forbidden in [
        "legacy-proposal-token-canary",
        "subscription-url-canary",
        "secret-canary",
        "connection-target-canary",
    ] {
        assert!(document.diagnostics.iter().all(|entry| entry.revision != forbidden));
        assert!(document
            .audits
            .iter()
            .all(|entry| entry.proposal_id != forbidden && entry.snapshot_revision != forbidden));
    }
}

#[test]
fn history_normalization_rejects_invalid_timestamps_and_deduplicates_codes() {
    let revision = "a".repeat(64);
    let proposal_id = "b".repeat(32);
    let mut document = AgentHistoryDocument {
        diagnostics: VecDeque::from([
            AgentDiagnosticHistoryEntry {
                finding_codes: vec![
                    AgentFindingCode::RecentCoreErrors,
                    AgentFindingCode::RecentCoreErrors,
                    AgentFindingCode::TunRuntimeMismatch,
                ],
                probe_failure_codes: vec![
                    AgentProbeCode::TelemetryUnavailable,
                    AgentProbeCode::TelemetryUnavailable,
                ],
                ..diagnostic(1, &revision, AgentHealth::Warning)
            },
            AgentDiagnosticHistoryEntry {
                core_state: AgentCoreState::Unknown,
                service_state: AgentServiceState::Unknown,
                ..diagnostic(i64::MAX, &revision, AgentHealth::Critical)
            },
        ]),
        audits: VecDeque::from([
            audit(1, &proposal_id, &revision),
            AgentAuditHistoryEntry {
                outcome: AgentAuditOutcome::ActionFailed,
                ..audit(-1, &proposal_id, &revision)
            },
        ]),
    };

    normalize_history_document(&mut document);

    assert_eq!(document.diagnostics.len(), 1);
    assert_eq!(
        document.diagnostics[0].finding_codes,
        vec![AgentFindingCode::RecentCoreErrors, AgentFindingCode::TunRuntimeMismatch]
    );
    assert_eq!(
        document.diagnostics[0].probe_failure_codes,
        vec![AgentProbeCode::TelemetryUnavailable]
    );
    assert_eq!(document.audits.len(), 1);
    assert_eq!(document.audits[0].proposal_id, proposal_id);
}

#[test]
fn normalization_keeps_only_the_newest_audits() {
    let revision = "c".repeat(64);
    let mut document = AgentHistoryDocument {
        diagnostics: VecDeque::new(),
        audits: (0..(MAX_AUDIT_HISTORY as i64 + 5))
            .map(|index| audit(index, &"d".repeat(32), &revision))
            .collect(),
    };
    normalize_history_document(&mut document);
    assert_eq!(document.audits.len(), MAX_AUDIT_HISTORY);
    assert_eq!(document.audits[0].recorded_at, 5);
}

#[test]
fn audits_with_an_invalid_revision_are_discarded() {
    let mut document =
        AgentHistoryDocument { diagnostics: VecDeque::new(), audits: VecDeque::new() };
    assert!(!record_audit(
        &mut document,
        "proposal",
        AgentActionKind::StartCore,
        "not-a-revision",
        AgentAuditOutcome::Proposed,
        10,
    ));
    assert!(document.audits.is_empty());
    assert!(record_audit(
        &mut document,
        "proposal",
        AgentActionKind::StartCore,
        &"e".repeat(64),
        AgentAuditOutcome::Proposed,
        10,
    ));
    assert_eq!(document.audits.len(), 1);
    assert_eq!(document.audits[0].proposal_id, proposal_reference("proposal"));
    assert_eq!(document.audits[0].recorded_at, 10);
}
