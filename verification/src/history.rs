//! The persisted diagnostic and audit history: what an entry must satisfy to be kept, how
//! legacy entries are brought to the current form, and how much of it is retained.
use vstd::prelude::*;

use std::collections::VecDeque;

use crate::digest::{is_lower_hex, is_lower_hex_text, proposal_reference, proposal_reference_of};
use crate::error::AgentAuditOutcome;
use crate::model::{
    AgentActionKind, AgentCoreState, AgentFindingCode, AgentHealth, AgentProbeCode,
    AgentServiceState,
};

verus! {

pub const HISTORY_SCHEMA_VERSION: u32 = 1;

pub const MAX_DIAGNOSTIC_HISTORY: usize = 100;

pub const MAX_AUDIT_HISTORY: usize = 200;

/// One recorded diagnostic run, reduced to closed codes.
pub struct AgentDiagnosticHistoryEntry {
    pub schema_version: u32,
    pub captured_at: i64,
    pub revision: String,
    pub health: AgentHealth,
    pub core_state: AgentCoreState,
    pub service_state: AgentServiceState,
    pub finding_codes: Vec<AgentFindingCode>,
    pub probe_failure_codes: Vec<AgentProbeCode>,
}

/// One recorded outcome of a proposal; the proposal is named only by its reference.
pub struct AgentAuditHistoryEntry {
    pub schema_version: u32,
    pub recorded_at: i64,
    pub proposal_id: String,
    pub action: AgentActionKind,
    pub snapshot_revision: String,
    pub outcome: AgentAuditOutcome,
}

/// The history document, oldest entries first.
pub struct AgentHistoryDocument {
    pub diagnostics: VecDeque<AgentDiagnosticHistoryEntry>,
    pub audits: VecDeque<AgentAuditHistoryEntry>,
}

/// The value of a diagnostic entry.
pub struct DiagnosticEntryView {
    pub schema_version: u32,
    pub captured_at: i64,
    pub revision: Seq<char>,
    pub health: AgentHealth,
    pub core_state: AgentCoreState,
    pub service_state: AgentServiceState,
    pub finding_codes: Seq<AgentFindingCode>,
    pub probe_failure_codes: Seq<AgentProbeCode>,
}

impl View for AgentDiagnosticHistoryEntry {
    type V = DiagnosticEntryView;

    open spec fn view(&self) -> DiagnosticEntryView {
        DiagnosticEntryView {
            schema_version: self.schema_version,
            captured_at: self.captured_at,
            revision: self.revision@,
            health: self.health,
            core_state: self.core_state,
            service_state: self.service_state,
            finding_codes: self.finding_codes@,
            probe_failure_codes: self.probe_failure_codes@,
        }
    }
}

/// The value of an audit entry.
pub struct AuditEntryView {
    pub schema_version: u32,
    pub recorded_at: i64,
    pub proposal_id: Seq<char>,
    pub action: AgentActionKind,
    pub snapshot_revision: Seq<char>,
    pub outcome: AgentAuditOutcome,
}

impl View for AgentAuditHistoryEntry {
    type V = AuditEntryView;

    open spec fn view(&self) -> AuditEntryView {
        AuditEntryView {
            schema_version: self.schema_version,
            recorded_at: self.recorded_at,
            proposal_id: self.proposal_id@,
            action: self.action,
            snapshot_revision: self.snapshot_revision@,
            outcome: self.outcome,
        }
    }
}

pub open spec fn diagnostic_views(s: Seq<AgentDiagnosticHistoryEntry>) -> Seq<DiagnosticEntryView> {
    s.map_values(|e: AgentDiagnosticHistoryEntry| e@)
}

pub open spec fn audit_views(s: Seq<AgentAuditHistoryEntry>) -> Seq<AuditEntryView> {
    s.map_values(|e: AgentAuditHistoryEntry| e@)
}

/// The newest `maximum` entries.
pub open spec fn newest<T>(s: Seq<T>, maximum: nat) -> Seq<T> {
    if s.len() > maximum {
        s.subrange(s.len() - maximum, s.len() as int)
    } else {
        s
    }
}

/// Drops the oldest entries until at most `maximum` remain.
pub fn trim<T>(entries: &mut VecDeque<T>, maximum: usize)
    ensures
        final(entries)@ == newest(old(entries)@, maximum as nat),
{
    let ghost initial = entries@;
    while entries.len() > maximum
        invariant
            entries@.len() <= initial.len(),
            entries@.len() >= maximum ==> entries@ == initial.subrange(
                initial.len() - entries@.len(),
                initial.len() as int,
            ),
            initial.len() > maximum ==> entries@.len() >= maximum,
            initial.len() <= maximum ==> entries@ == initial,
        decreases entries@.len(),
    {
        entries.pop_front();
        assert(entries@ =~= initial.subrange(
            initial.len() - entries@.len(),
            initial.len() as int,
        ));
    }
    proof {
        if initial.len() > maximum {
            assert(entries@.len() == maximum);
        }
    }
}

/// The earliest millisecond `chrono` represents: January 1 of its first year, -262143.
pub const CHRONO_MIN_MILLIS: i64 = -8_334_601_228_800_000;

/// The last millisecond `chrono` represents: the end of December 31 of its last year, 262142.
pub const CHRONO_MAX_MILLIS: i64 = 8_210_266_876_799_999;

/// Calls `chrono::DateTime::from_timestamp_millis` and says whether it gave a time: it does
/// exactly for the milliseconds whose day lies within the years `NaiveDate` represents.
#[verifier::external_body]
fn chrono_millis_in_range(millis: i64) -> (accepted: bool)
    ensures
        accepted == (CHRONO_MIN_MILLIS <= millis <= CHRONO_MAX_MILLIS),
{
    chrono::DateTime::from_timestamp_millis(millis).is_some()
}

/// A history time is not before 1970 and can be represented as a calendar time.
pub open spec fn valid_history_timestamp(timestamp: i64) -> bool {
    0 <= timestamp <= CHRONO_MAX_MILLIS
}

pub fn is_valid_history_timestamp(timestamp: i64) -> (valid: bool)
    ensures
        valid == valid_history_timestamp(timestamp),
{
    timestamp >= 0 && chrono_millis_in_range(timestamp)
}

/// The items of `s` without repeats, each at its first position.
pub open spec fn first_occurrences<T>(s: Seq<T>) -> Seq<T>
    decreases s.len(),
{
    if s.len() == 0 {
        s
    } else {
        let rest = first_occurrences(s.drop_last());
        if rest.contains(s.last()) {
            rest
        } else {
            rest.push(s.last())
        }
    }
}

/// Removes repeated finding codes, keeping each at its first position.
pub fn deduplicate_codes(codes: &mut Vec<AgentFindingCode>)
    ensures
        final(codes)@ == first_occurrences(old(codes)@),
{
    let ghost initial = codes@;
    let mut unique: Vec<AgentFindingCode> = Vec::new();
    let mut i: usize = 0;
    while i < codes.len()
        invariant
            i <= codes@.len(),
            codes@ == initial,
            unique@ == first_occurrences(initial.take(i as int)),
        decreases codes@.len() - i,
    {
        let code = codes[i];
        assert(initial.take(i + 1).drop_last() =~= initial.take(i as int));
        let mut seen = false;
        let mut j: usize = 0;
        while j < unique.len()
            invariant
                j <= unique@.len(),
                seen == (exists|k: int| 0 <= k < j && unique@[k] == code),
            decreases unique@.len() - j,
        {
            if unique[j] == code {
                seen = true;
            }
            j = j + 1;
        }
        if !seen {
            unique.push(code);
        }
        i = i + 1;
    }
    assert(initial.take(initial.len() as int) =~= initial);
    *codes = unique;
}

/// Removes repeated probe failure codes, keeping each at its first position.
pub fn deduplicate_probe_codes(codes: &mut Vec<AgentProbeCode>)
    ensures
        final(codes)@ == first_occurrences(old(codes)@),
{
    let ghost initial = codes@;
    let mut unique: Vec<AgentProbeCode> = Vec::new();
    let mut i: usize = 0;
    while i < codes.len()
        invariant
            i <= codes@.len(),
            codes@ == initial,
            unique@ == first_occurrences(initial.take(i as int)),
        decreases codes@.len() - i,
    {
        let code = codes[i];
        assert(initial.take(i + 1).drop_last() =~= initial.take(i as int));
        let mut seen = false;
        let mut j: usize = 0;
        while j < unique.len()
            invariant
                j <= unique@.len(),
                seen == (exists|k: int| 0 <= k < j && unique@[k] == code),
            decreases unique@.len() - j,
        {
            if unique[j] == code {
                seen = true;
            }
            j = j + 1;
        }
        if !seen {
            unique.push(code);
        }
        i = i + 1;
    }
    assert(initial.take(initial.len() as int) =~= initial);
    *codes = unique;
}

/// Whether a stored diagnostic entry is kept: current schema, a valid time and a full revision.
pub open spec fn diagnostic_is_valid(entry: DiagnosticEntryView) -> bool {
    &&& entry.schema_version == HISTORY_SCHEMA_VERSION
    &&& valid_history_timestamp(entry.captured_at)
    &&& is_lower_hex_text(entry.revision, 64)
}

/// A kept diagnostic entry with its codes deduplicated.
pub open spec fn normalized_diagnostic(entry: DiagnosticEntryView) -> DiagnosticEntryView {
    DiagnosticEntryView {
        finding_codes: first_occurrences(entry.finding_codes),
        probe_failure_codes: first_occurrences(entry.probe_failure_codes),
        ..entry
    }
}

/// Checks a diagnostic entry and deduplicates its codes; says whether the entry is kept.
pub fn normalize_diagnostic_entry(entry: &mut AgentDiagnosticHistoryEntry) -> (kept: bool)
    ensures
        kept == diagnostic_is_valid(old(entry)@),
        kept ==> final(entry)@ == normalized_diagnostic(old(entry)@),
{
    if entry.schema_version != HISTORY_SCHEMA_VERSION || !is_valid_history_timestamp(
        entry.captured_at,
    ) || !is_lower_hex(entry.revision.as_str(), 64) {
        return false;
    }
    deduplicate_codes(&mut entry.finding_codes);
    deduplicate_probe_codes(&mut entry.probe_failure_codes);
    true
}

/// Whether a stored audit entry is kept: current schema, a valid time and a full revision.
pub open spec fn audit_is_valid(entry: AuditEntryView) -> bool {
    &&& entry.schema_version == HISTORY_SCHEMA_VERSION
    &&& valid_history_timestamp(entry.recorded_at)
    &&& is_lower_hex_text(entry.snapshot_revision, 64)
}

/// A kept audit entry whose proposal id, unless already a reference, is replaced by one.
pub open spec fn normalized_audit(entry: AuditEntryView) -> AuditEntryView {
    if is_lower_hex_text(entry.proposal_id, 32) {
        entry
    } else {
        AuditEntryView { proposal_id: proposal_reference_of(entry.proposal_id), ..entry }
    }
}

/// Checks an audit entry and hashes a legacy proposal id; says whether the entry is kept.
pub fn normalize_audit_entry(entry: &mut AgentAuditHistoryEntry) -> (kept: bool)
    ensures
        kept == audit_is_valid(old(entry)@),
        kept ==> final(entry)@ == normalized_audit(old(entry)@),
        kept ==> is_lower_hex_text(final(entry).proposal_id@, 32),
{
    if entry.schema_version != HISTORY_SCHEMA_VERSION || !is_valid_history_timestamp(
        entry.recorded_at,
    ) || !is_lower_hex(entry.snapshot_revision.as_str(), 64) {
        return false;
    }
    if !is_lower_hex(entry.proposal_id.as_str(), 32) {
        entry.proposal_id = proposal_reference(entry.proposal_id.as_str());
    }
    true
}

/// The kept diagnostic entries, normalized, in order.
pub open spec fn normalized_diagnostics(s: Seq<DiagnosticEntryView>) -> Seq<DiagnosticEntryView>
    decreases s.len(),
{
    if s.len() == 0 {
        s
    } else if diagnostic_is_valid(s.last()) {
        normalized_diagnostics(s.drop_last()).push(normalized_diagnostic(s.last()))
    } else {
        normalized_diagnostics(s.drop_last())
    }
}

/// A stored audit entry that names its proposal only by a fixed-length hex reference and
/// carries a full snapshot revision.
pub open spec fn audit_is_private(entry: AuditEntryView) -> bool {
    &&& audit_is_valid(entry)
    &&& is_lower_hex_text(entry.proposal_id, 32)
}

/// The kept audit entries, normalized, in order.
pub open spec fn normalized_audits(s: Seq<AuditEntryView>) -> Seq<AuditEntryView>
    decreases s.len(),
{
    if s.len() == 0 {
        s
    } else if audit_is_valid(s.last()) {
        normalized_audits(s.drop_last()).push(normalized_audit(s.last()))
    } else {
        normalized_audits(s.drop_last())
    }
}

fn normalize_diagnostics(entries: &mut VecDeque<AgentDiagnosticHistoryEntry>)
    ensures
        diagnostic_views(final(entries)@) == normalized_diagnostics(diagnostic_views(old(entries)@)),
{
    let ghost initial = entries@;
    let mut pending: VecDeque<AgentDiagnosticHistoryEntry> = VecDeque::new();
    std::mem::swap(&mut pending, entries);
    let mut kept: VecDeque<AgentDiagnosticHistoryEntry> = VecDeque::new();
    let ghost mut done: int = 0;
    while pending.len() > 0
        invariant
            0 <= done <= initial.len(),
            pending@ == initial.subrange(done, initial.len() as int),
            diagnostic_views(kept@) == normalized_diagnostics(diagnostic_views(initial.take(done))),
        decreases pending@.len(),
    {
        match pending.pop_front() {
            Some(mut entry) => {
                assert(entry == initial[done]);
                assert(diagnostic_views(initial.take(done + 1)).drop_last() =~= diagnostic_views(
                    initial.take(done),
                ));
                assert(diagnostic_views(initial.take(done + 1)).last() == entry@);
                let ghost before = kept@;
                if normalize_diagnostic_entry(&mut entry) {
                    kept.push_back(entry);
                    assert(diagnostic_views(kept@) =~= diagnostic_views(before).push(entry@));
                }
                proof {
                    done = done + 1;
                }
            },
            None => {},
        }
    }
    assert(initial.take(initial.len() as int) =~= initial);
    *entries = kept;
}

fn normalize_audits(entries: &mut VecDeque<AgentAuditHistoryEntry>)
    ensures
        audit_views(final(entries)@) == normalized_audits(audit_views(old(entries)@)),
        forall|i: int| 0 <= i < final(entries)@.len() ==> audit_is_private(#[trigger] final(entries)@[i]@),
{
    let ghost initial = entries@;
    let mut pending: VecDeque<AgentAuditHistoryEntry> = VecDeque::new();
    std::mem::swap(&mut pending, entries);
    let mut kept: VecDeque<AgentAuditHistoryEntry> = VecDeque::new();
    let ghost mut done: int = 0;
    while pending.len() > 0
        invariant
            0 <= done <= initial.len(),
            pending@ == initial.subrange(done, initial.len() as int),
            audit_views(kept@) == normalized_audits(audit_views(initial.take(done))),
            forall|i: int| 0 <= i < kept@.len() ==> audit_is_private(#[trigger] kept@[i]@),
        decreases pending@.len(),
    {
        match pending.pop_front() {
            Some(mut entry) => {
                assert(entry == initial[done]);
                assert(audit_views(initial.take(done + 1)).drop_last() =~= audit_views(
                    initial.take(done),
                ));
                assert(audit_views(initial.take(done + 1)).last() == entry@);
                let ghost before = kept@;
                if normalize_audit_entry(&mut entry) {
                    kept.push_back(entry);
                    assert(audit_views(kept@) =~= audit_views(before).push(entry@));
                }
                proof {
                    done = done + 1;
                }
            },
            None => {},
        }
    }
    assert(initial.take(initial.len() as int) =~= initial);
    *entries = kept;
}

proof fn lemma_newest_views<T, V>(s: Seq<T>, maximum: nat, f: spec_fn(T) -> V)
    ensures
        newest(s, maximum).map_values(f) =~= newest(s.map_values(f), maximum),
{
}

/// Brings a loaded document to the current form: invalid entries go, legacy proposal ids are
/// hashed, codes are deduplicated, and only the newest entries of each list are kept.
pub fn normalize_history_document(document: &mut AgentHistoryDocument)
    ensures
        diagnostic_views(final(document).diagnostics@) == newest(
            normalized_diagnostics(diagnostic_views(old(document).diagnostics@)),
            MAX_DIAGNOSTIC_HISTORY as nat,
        ),
        audit_views(final(document).audits@) == newest(
            normalized_audits(audit_views(old(document).audits@)),
            MAX_AUDIT_HISTORY as nat,
        ),
        final(document).audits@.len() <= MAX_AUDIT_HISTORY,
        final(document).diagnostics@.len() <= MAX_DIAGNOSTIC_HISTORY,
        forall|i: int|
            0 <= i < final(document).audits@.len() ==> audit_is_private(
                #[trigger] final(document).audits@[i]@,
            ),
{
    normalize_diagnostics(&mut document.diagnostics);
    normalize_audits(&mut document.audits);
    let ghost diagnostics = document.diagnostics@;
    let ghost audits = document.audits@;
    trim(&mut document.diagnostics, MAX_DIAGNOSTIC_HISTORY);
    trim(&mut document.audits, MAX_AUDIT_HISTORY);
    proof {
        assert forall|i: int| 0 <= i < document.audits@.len() implies audit_is_private(
            #[trigger] document.audits@[i]@,
        ) by {
            if audits.len() > MAX_AUDIT_HISTORY {
                assert(document.audits@[i] == audits[audits.len() - MAX_AUDIT_HISTORY + i]);
            } else {
                assert(document.audits@[i] == audits[i]);
            }
        }
        lemma_newest_views(
            diagnostics,
            MAX_DIAGNOSTIC_HISTORY as nat,
            |e: AgentDiagnosticHistoryEntry| e@,
        );
        lemma_newest_views(audits, MAX_AUDIT_HISTORY as nat, |e: AgentAuditHistoryEntry| e@);
    }
}

/// The audit entry for an outcome of a proposal, recorded at `recorded_at`.
pub open spec fn audit_record(
    proposal_id: Seq<char>,
    action: AgentActionKind,
    snapshot_revision: Seq<char>,
    outcome: AgentAuditOutcome,
    recorded_at: i64,
) -> AuditEntryView {
    AuditEntryView {
        schema_version: HISTORY_SCHEMA_VERSION,
        recorded_at,
        proposal_id: proposal_reference_of(proposal_id),
        action,
        snapshot_revision,
        outcome,
    }
}

/// Records an outcome of a proposal under its reference, keeping only the newest audits; an
/// outcome whose snapshot revision is not a full lowercase hex digest is discarded.
pub fn record_audit(
    document: &mut AgentHistoryDocument,
    proposal_id: &str,
    action: AgentActionKind,
    snapshot_revision: &str,
    outcome: AgentAuditOutcome,
    recorded_at: i64,
) -> (recorded: bool)
    ensures
        recorded == is_lower_hex_text(snapshot_revision@, 64),
        diagnostic_views(final(document).diagnostics@) == diagnostic_views(old(document).diagnostics@),
        recorded ==> audit_views(final(document).audits@) == newest(
            audit_views(old(document).audits@).push(
                audit_record(proposal_id@, action, snapshot_revision@, outcome, recorded_at),
            ),
            MAX_AUDIT_HISTORY as nat,
        ),
        !recorded ==> audit_views(final(document).audits@) == audit_views(old(document).audits@),
{
    if !is_lower_hex(snapshot_revision, 64) {
        return false;
    }
    let entry = AgentAuditHistoryEntry {
        schema_version: HISTORY_SCHEMA_VERSION,
        recorded_at,
        proposal_id: proposal_reference(proposal_id),
        action,
        snapshot_revision: snapshot_revision.to_owned(),
        outcome,
    };
    let ghost before = document.audits@;
    document.audits.push_back(entry);
    let ghost pushed = document.audits@;
    assert(audit_views(pushed) =~= audit_views(before).push(entry@));
    trim(&mut document.audits, MAX_AUDIT_HISTORY);
    proof {
        lemma_newest_views(pushed, MAX_AUDIT_HISTORY as nat, |e: AgentAuditHistoryEntry| e@);
    }
    true
}

} // verus!
