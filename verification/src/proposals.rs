//! Pending proposals: who owns them, when they lapse, and how many may wait at once.
//!
//! Times are milliseconds of a monotonic clock that the caller reads.
use vstd::prelude::*;

use crate::error::AgentCommandError;
use crate::model::{AgentActionRequest, AgentActionResult, AgentNetworkSnapshot, AgentProposal};
use crate::planning::{action_verified, verify_action, ActionPlan, ActionPreconditions};
use crate::digest::{is_lower_hex, is_lower_hex_text};
use crate::text::str_equal;

verus! {

/// How long a proposal may wait for execution.
pub const PROPOSAL_TTL_MS: u64 = 60_000;

/// The shortest time between two proposals of one owner.
pub const MIN_PROPOSAL_INTERVAL_MS: u64 = 500;

/// How many proposals may wait at once, over all owners.
pub const MAX_PENDING_PROPOSALS: usize = 24;

/// How many proposals one owner may have waiting at once.
pub const MAX_PENDING_PER_OWNER: usize = 4;

/// A proposal waiting for execution, with what must still hold when it runs.
pub struct PendingProposal {
    pub proposal: AgentProposal,
    pub preconditions: ActionPreconditions,
    pub owner_label: String,
    /// The monotonic time at which the proposal lapses.
    pub expires_at: u64,
}

/// A pending proposal under its id.
pub struct PendingEntry {
    pub id: String,
    pub pending: PendingProposal,
}

/// When an owner last proposed.
pub struct OwnerStamp {
    pub owner_label: String,
    pub proposed_at: u64,
}

/// The pending proposals by id and the last proposal time by owner; no key occurs twice.
pub struct ProposalStore {
    pub pending: Vec<PendingEntry>,
    pub last_proposed_at: Vec<OwnerStamp>,
}

/// The items of `s` for which `keep` holds, in order.
pub open spec fn kept<T>(s: Seq<T>, keep: spec_fn(T) -> bool) -> Seq<T>
    decreases s.len(),
{
    if s.len() == 0 {
        s
    } else if keep(s.last()) {
        kept(s.drop_last(), keep).push(s.last())
    } else {
        kept(s.drop_last(), keep)
    }
}

/// No two items of `s` share a key.
pub open spec fn keys_distinct<T>(s: Seq<T>, key: spec_fn(T) -> Seq<char>) -> bool {
    forall|i: int, j: int| 0 <= i < j < s.len() ==> key(s[i]) != key(s[j])
}

proof fn lemma_kept_contained<T>(s: Seq<T>, keep: spec_fn(T) -> bool)
    ensures
        forall|x: T| #[trigger] kept(s, keep).contains(x) ==> s.contains(x) && keep(x),
    decreases s.len(),
{
    if s.len() > 0 {
        lemma_kept_contained(s.drop_last(), keep);
        assert forall|x: T| #[trigger] kept(s, keep).contains(x) implies s.contains(x) && keep(x) by {
            let ks = kept(s, keep);
            let r = kept(s.drop_last(), keep);
            let idx = choose|idx: int| 0 <= idx < ks.len() && ks[idx] == x;
            if keep(s.last()) && idx == r.len() {
                assert(s[s.len() - 1] == x);
            } else {
                assert(r[idx] == x);
                assert(r.contains(x));
                let k = choose|k: int| 0 <= k < s.drop_last().len() && s.drop_last()[k] == x;
                assert(s[k] == x);
            }
        }
    }
}

proof fn lemma_kept_distinct<T>(s: Seq<T>, keep: spec_fn(T) -> bool, key: spec_fn(T) -> Seq<char>)
    requires
        keys_distinct(s, key),
    ensures
        keys_distinct(kept(s, keep), key),
    decreases s.len(),
{
    if s.len() > 0 {
        let rest = s.drop_last();
        assert(keys_distinct(rest, key));
        lemma_kept_distinct(rest, keep, key);
        lemma_kept_contained(rest, keep);
        if keep(s.last()) {
            let r = kept(rest, keep);
            assert forall|i: int, j: int| 0 <= i < j < r.push(s.last()).len() implies key(
                r.push(s.last())[i],
            ) != key(r.push(s.last())[j]) by {
                if j == r.len() {
                    assert(r.push(s.last())[i] == r[i]);
                    assert(r.contains(r[i]));
                    let k = choose|k: int| 0 <= k < rest.len() && rest[k] == r[i];
                    assert(key(s[k]) != key(s[s.len() - 1]));
                }
            }
        }
    }
}

pub open spec fn entry_id(e: PendingEntry) -> Seq<char> {
    e.id@
}

pub open spec fn stamp_owner(s: OwnerStamp) -> Seq<char> {
    s.owner_label@
}

/// Whether a pending proposal is still live at `now`.
pub open spec fn is_live(now: u64) -> spec_fn(PendingEntry) -> bool {
    |e: PendingEntry| e.pending.expires_at > now
}

/// The time from `then` to `now`, zero when `then` is later (a monotonic `duration_since`).
pub open spec fn elapsed(now: u64, then: u64) -> int {
    if now >= then {
        now - then
    } else {
        0
    }
}

/// Whether an owner's last proposal is recent enough at `now` to be remembered.
pub open spec fn is_recent(now: u64) -> spec_fn(OwnerStamp) -> bool {
    |s: OwnerStamp| elapsed(now, s.proposed_at) < PROPOSAL_TTL_MS
}

impl ProposalStore {
    /// No id and no owner occurs twice.
    pub open spec fn wf(&self) -> bool {
        &&& keys_distinct(self.pending@, |e: PendingEntry| entry_id(e))
        &&& keys_distinct(self.last_proposed_at@, |s: OwnerStamp| stamp_owner(s))
    }

    pub fn new() -> (store: ProposalStore)
        ensures
            store.wf(),
            store.pending@.len() == 0,
            store.last_proposed_at@.len() == 0,
    {
        ProposalStore { pending: Vec::new(), last_proposed_at: Vec::new() }
    }
}

/// Drops the lapsed proposals and forgets the owners that have not proposed for a TTL.
pub fn cleanup_store(store: &mut ProposalStore, now: u64)
    requires
        old(store).wf(),
    ensures
        final(store).wf(),
        final(store).pending@ == kept(old(store).pending@, is_live(now)),
        final(store).last_proposed_at@ == kept(old(store).last_proposed_at@, is_recent(now)),
{
    let ghost old_pending = store.pending@;
    let ghost old_stamps = store.last_proposed_at@;
    let mut taken: Vec<PendingEntry> = Vec::new();
    std::mem::swap(&mut taken, &mut store.pending);
    let mut live: Vec<PendingEntry> = Vec::new();
    for entry in it: taken.into_iter()
        invariant
            it.seq() == old_pending,
            live@ == kept(it.seq().take(it.index() as int), is_live(now)),
    {
        let ghost before = it.seq().take(it.index() as int);
        assert(it.seq().take(it.index() + 1).drop_last() =~= before);
        if entry.pending.expires_at > now {
            live.push(entry);
        }
    }
    assert(old_pending.take(old_pending.len() as int) =~= old_pending);
    store.pending = live;
    let mut taken_stamps: Vec<OwnerStamp> = Vec::new();
    std::mem::swap(&mut taken_stamps, &mut store.last_proposed_at);
    let mut recent: Vec<OwnerStamp> = Vec::new();
    for stamp in it: taken_stamps.into_iter()
        invariant
            it.seq() == old_stamps,
            recent@ == kept(it.seq().take(it.index() as int), is_recent(now)),
    {
        let ghost before = it.seq().take(it.index() as int);
        assert(it.seq().take(it.index() + 1).drop_last() =~= before);
        let age: u64 = if now >= stamp.proposed_at {
            now - stamp.proposed_at
        } else {
            0
        };
        if age < PROPOSAL_TTL_MS {
            recent.push(stamp);
        }
    }
    assert(old_stamps.take(old_stamps.len() as int) =~= old_stamps);
    store.last_proposed_at = recent;
    proof {
        lemma_kept_distinct(old_pending, is_live(now), |e: PendingEntry| entry_id(e));
        lemma_kept_distinct(old_stamps, is_recent(now), |s: OwnerStamp| stamp_owner(s));
    }
}

/// How many pending proposals belong to `owner`.
pub open spec fn owner_count(entries: Seq<PendingEntry>, owner: Seq<char>) -> nat
    decreases entries.len(),
{
    if entries.len() == 0 {
        0
    } else {
        owner_count(entries.drop_last(), owner) + if entries.last().pending.owner_label@ == owner {
            1nat
        } else {
            0nat
        }
    }
}

proof fn lemma_owner_count_bound(entries: Seq<PendingEntry>, owner: Seq<char>)
    ensures
        owner_count(entries, owner) <= entries.len(),
    decreases entries.len(),
{
    if entries.len() > 0 {
        lemma_owner_count_bound(entries.drop_last(), owner);
    }
}

/// Whether `owner` may not add a proposal: the store is full, or the owner has its share.
pub open spec fn limit_reached(entries: Seq<PendingEntry>, owner: Seq<char>) -> bool {
    entries.len() >= MAX_PENDING_PROPOSALS || owner_count(entries, owner) >= MAX_PENDING_PER_OWNER
}

pub fn enforce_store_limits(store: &ProposalStore, owner_label: &str) -> (result: Result<
    (),
    AgentCommandError,
>)
    ensures
        result is Err <==> limit_reached(store.pending@, owner_label@),
        result matches Err(error) ==> error == AgentCommandError::ProposalLimitReached,
{
    let mut count: usize = 0;
    let mut i: usize = 0;
    while i < store.pending.len()
        invariant
            i <= store.pending@.len(),
            count == owner_count(store.pending@.take(i as int), owner_label@),
            count <= i,
        decreases store.pending@.len() - i,
    {
        assert(store.pending@.take(i + 1).drop_last() =~= store.pending@.take(i as int));
        proof {
            lemma_owner_count_bound(store.pending@.take(i as int), owner_label@);
        }
        if str_equal(store.pending[i].pending.owner_label.as_str(), owner_label) {
            count = count + 1;
        }
        i = i + 1;
    }
    assert(store.pending@.take(store.pending@.len() as int) =~= store.pending@);
    if store.pending.len() >= MAX_PENDING_PROPOSALS || count >= MAX_PENDING_PER_OWNER {
        return Err(AgentCommandError::ProposalLimitReached);
    }
    Ok(())
}

/// The position of the entry with the given id, if any.
pub open spec fn index_of_id(entries: Seq<PendingEntry>, id: Seq<char>) -> int
    decreases entries.len(),
{
    if entries.len() == 0 {
        -1
    } else if entries.last().id@ == id {
        entries.len() - 1
    } else {
        index_of_id(entries.drop_last(), id)
    }
}

proof fn lemma_index_of_id(entries: Seq<PendingEntry>, id: Seq<char>)
    ensures
        -1 <= index_of_id(entries, id) < entries.len(),
        0 <= index_of_id(entries, id) ==> entries[index_of_id(entries, id)].id@ == id,
        index_of_id(entries, id) == -1 ==> forall|k: int|
            0 <= k < entries.len() ==> #[trigger] entries[k].id@ != id,
    decreases entries.len(),
{
    if entries.len() > 0 {
        lemma_index_of_id(entries.drop_last(), id);
        if entries.last().id@ != id {
            assert forall|k: int| 0 <= k < entries.len() - 1 implies #[trigger] entries[k].id@
                == entries.drop_last()[k].id@ by {}
        }
    }
}

fn find_proposal(entries: &Vec<PendingEntry>, id: &str) -> (found: Option<usize>)
    ensures
        match found {
            Some(i) => i == index_of_id(entries@, id@),
            None => index_of_id(entries@, id@) == -1,
        },
{
    let mut i: usize = entries.len();
    assert(entries@.take(i as int) =~= entries@);
    while i > 0
        invariant
            i <= entries@.len(),
            index_of_id(entries@, id@) == index_of_id(entries@.take(i as int), id@),
        decreases i,
    {
        assert(entries@.take(i as int).drop_last() =~= entries@.take(i - 1));
        if str_equal(entries[i - 1].id.as_str(), id) {
            return Some(i - 1);
        }
        i = i - 1;
    }
    None
}

/// The position of the proposal `id` if it is pending and belongs to `owner`, else -1.
pub open spec fn owned_index(entries: Seq<PendingEntry>, owner: Seq<char>, id: Seq<char>) -> int {
    let i = index_of_id(entries, id);
    if 0 <= i && entries[i].pending.owner_label@ == owner {
        i
    } else {
        -1
    }
}

/// Removes and returns the pending proposal `id` of `owner_label`; another owner's proposal
/// stays where it is, and is reported as not found.
pub fn take_proposal(store: &mut ProposalStore, owner_label: &str, proposal_id: &str) -> (result:
    Result<PendingProposal, AgentCommandError>)
    requires
        old(store).wf(),
    ensures
        final(store).wf(),
        final(store).last_proposed_at@ == old(store).last_proposed_at@,
        ({
            let i = owned_index(old(store).pending@, owner_label@, proposal_id@);
            match result {
                Ok(pending) => 0 <= i && pending == old(store).pending@[i].pending
                    && final(store).pending@ == old(store).pending@.remove(i)
                    && index_of_id(final(store).pending@, proposal_id@) == -1,
                Err(error) => i == -1 && error == AgentCommandError::ProposalNotFound
                    && final(store).pending@ == old(store).pending@,
            }
        }),
{
    proof {
        lemma_index_of_id(store.pending@, proposal_id@);
    }
    match find_proposal(&store.pending, proposal_id) {
        Some(i) => {
            if !str_equal(store.pending[i].pending.owner_label.as_str(), owner_label) {
                return Err(AgentCommandError::ProposalNotFound);
            }
            let ghost before = store.pending@;
            let entry = store.pending.remove(i);
            proof {
                lemma_taken_proposal_is_gone(before, i as int);
                assert forall|a: int, b: int| 0 <= a < b < store.pending@.len() implies entry_id(
                    store.pending@[a],
                ) != entry_id(store.pending@[b]) by {
                    let a2 = if a < i { a } else { a + 1 };
                    let b2 = if b < i { b } else { b + 1 };
                    assert(store.pending@[a] == before[a2]);
                    assert(store.pending@[b] == before[b2]);
                }
            }
            Ok(entry.pending)
        },
        None => Err(AgentCommandError::ProposalNotFound),
    }
}

/// Takes the pending proposal `id` of `owner_label` for execution if the digest the caller
/// holds matches: a proposal that is missing or belongs to another owner is not found, and one
/// whose digest differs stays pending.
pub fn take_owned_proposal(
    store: &mut ProposalStore,
    owner_label: &str,
    proposal_id: &str,
    digest: &str,
) -> (result: Result<PendingProposal, AgentCommandError>)
    requires
        old(store).wf(),
    ensures
        final(store).wf(),
        final(store).last_proposed_at@ == old(store).last_proposed_at@,
        ({
            let i = owned_index(old(store).pending@, owner_label@, proposal_id@);
            match result {
                Ok(pending) => 0 <= i && pending == old(store).pending@[i].pending
                    && pending.proposal.digest@ == digest@
                    && final(store).pending@ == old(store).pending@.remove(i),
                Err(error) => final(store).pending@ == old(store).pending@ && (if i == -1 {
                    error == AgentCommandError::ProposalNotFound
                } else {
                    old(store).pending@[i].pending.proposal.digest@ != digest@ && error
                        == AgentCommandError::ProposalDigestMismatch
                }),
            }
        }),
{
    proof {
        lemma_index_of_id(store.pending@, proposal_id@);
    }
    match find_proposal(&store.pending, proposal_id) {
        Some(i) => {
            if !str_equal(store.pending[i].pending.owner_label.as_str(), owner_label) {
                return Err(AgentCommandError::ProposalNotFound);
            }
            if !str_equal(store.pending[i].pending.proposal.digest.as_str(), digest) {
                return Err(AgentCommandError::ProposalDigestMismatch);
            }
            take_proposal(store, owner_label, proposal_id)
        },
        None => Err(AgentCommandError::ProposalNotFound),
    }
}

/// Withdraws the pending proposal `id` of `owner_label`; says whether there was one to withdraw.
pub fn cancel(store: &mut ProposalStore, owner_label: &str, proposal_id: &str) -> (cancelled: bool)
    requires
        old(store).wf(),
    ensures
        final(store).wf(),
        final(store).last_proposed_at@ == old(store).last_proposed_at@,
        ({
            let i = owned_index(old(store).pending@, owner_label@, proposal_id@);
            &&& cancelled == (0 <= i)
            &&& cancelled ==> final(store).pending@ == old(store).pending@.remove(i)
            &&& !cancelled ==> final(store).pending@ == old(store).pending@
        }),
{
    let taken = take_proposal(store, owner_label, proposal_id);
    taken.is_ok()
}

/// The pending entries without the one under `id`, if there is one.
pub open spec fn without_id(entries: Seq<PendingEntry>, id: Seq<char>) -> Seq<PendingEntry> {
    let i = index_of_id(entries, id);
    if 0 <= i {
        entries.remove(i)
    } else {
        entries
    }
}

/// Adds a proposal under `id` at `now`, replacing one under the same id: lapsed entries go
/// first, and the owner is refused when the store is full or it has its share.
pub fn insert_proposal(
    store: &mut ProposalStore,
    id: String,
    pending: PendingProposal,
    now: u64,
) -> (result: Result<(), AgentCommandError>)
    requires
        old(store).wf(),
    ensures
        final(store).wf(),
        final(store).last_proposed_at@ == kept(old(store).last_proposed_at@, is_recent(now)),
        ({
            let live = kept(old(store).pending@, is_live(now));
            &&& (result is Err <==> limit_reached(live, pending.owner_label@))
            &&& result is Err ==> result == Err::<(), AgentCommandError>(
                AgentCommandError::ProposalLimitReached,
            ) && final(store).pending@ == live
            &&& result is Ok ==> final(store).pending@ == without_id(live, id@).push(
                PendingEntry { id, pending },
            )
        }),
{
    cleanup_store(store, now);
    let limits = enforce_store_limits(store, pending.owner_label.as_str());
    if limits.is_err() {
        return limits;
    }
    proof {
        lemma_index_of_id(store.pending@, id@);
    }
    let ghost before = store.pending@;
    match find_proposal(&store.pending, id.as_str()) {
        Some(i) => {
            store.pending.remove(i);
            proof {
                assert forall|a: int, b: int| 0 <= a < b < store.pending@.len() implies entry_id(
                    store.pending@[a],
                ) != entry_id(store.pending@[b]) by {
                    let a2 = if a < i { a } else { a + 1 };
                    let b2 = if b < i { b } else { b + 1 };
                    assert(store.pending@[a] == before[a2]);
                    assert(store.pending@[b] == before[b2]);
                }
                assert forall|k: int| 0 <= k < store.pending@.len() implies #[trigger] store.pending@[k].id@
                    != id@ by {
                    let k2 = if k < i { k } else { k + 1 };
                    assert(store.pending@[k] == before[k2]);
                    assert(entry_id(before[k2]) != entry_id(before[i as int]));
                }
            }
        },
        None => {},
    }
    let ghost middle = store.pending@;
    let entry = PendingEntry { id, pending };
    store.pending.push(entry);
    proof {
        assert(store.pending@.drop_last() =~= middle);
        assert forall|a: int, b: int| 0 <= a < b < store.pending@.len() implies entry_id(
            store.pending@[a],
        ) != entry_id(store.pending@[b]) by {
            if b == middle.len() {
                assert(middle[a].id@ != entry.id@);
            } else {
                assert(entry_id(middle[a]) != entry_id(middle[b]));
            }
        }
    }
    Ok(())
}

/// The stamp position of `owner`, or -1.
pub open spec fn index_of_owner(stamps: Seq<OwnerStamp>, owner: Seq<char>) -> int
    decreases stamps.len(),
{
    if stamps.len() == 0 {
        -1
    } else if stamps.last().owner_label@ == owner {
        stamps.len() - 1
    } else {
        index_of_owner(stamps.drop_last(), owner)
    }
}

proof fn lemma_index_of_owner(stamps: Seq<OwnerStamp>, owner: Seq<char>)
    ensures
        -1 <= index_of_owner(stamps, owner) < stamps.len(),
        0 <= index_of_owner(stamps, owner) ==> stamps[index_of_owner(stamps, owner)].owner_label@
            == owner,
        index_of_owner(stamps, owner) == -1 ==> forall|k: int|
            0 <= k < stamps.len() ==> #[trigger] stamps[k].owner_label@ != owner,
    decreases stamps.len(),
{
    if stamps.len() > 0 {
        lemma_index_of_owner(stamps.drop_last(), owner);
        if stamps.last().owner_label@ != owner {
            assert forall|k: int| 0 <= k < stamps.len() - 1 implies #[trigger] stamps[k].owner_label@
                == stamps.drop_last()[k].owner_label@ by {}
        }
    }
}

fn find_owner(stamps: &Vec<OwnerStamp>, owner: &str) -> (found: Option<usize>)
    ensures
        match found {
            Some(i) => i == index_of_owner(stamps@, owner@),
            None => index_of_owner(stamps@, owner@) == -1,
        },
{
    let mut i: usize = stamps.len();
    assert(stamps@.take(i as int) =~= stamps@);
    while i > 0
        invariant
            i <= stamps@.len(),
            index_of_owner(stamps@, owner@) == index_of_owner(stamps@.take(i as int), owner@),
        decreases i,
    {
        assert(stamps@.take(i as int).drop_last() =~= stamps@.take(i - 1));
        if str_equal(stamps[i - 1].owner_label.as_str(), owner) {
            return Some(i - 1);
        }
        i = i - 1;
    }
    None
}

/// Whether `owner` proposed less than the minimum interval before `now`.
pub open spec fn proposed_too_recently(stamps: Seq<OwnerStamp>, owner: Seq<char>, now: u64) -> bool {
    let i = index_of_owner(stamps, owner);
    0 <= i && elapsed(now, stamps[i].proposed_at) < MIN_PROPOSAL_INTERVAL_MS
}

/// Makes room for a new proposal of `owner_label` at `now`: lapsed entries go, then the owner
/// is refused if it proposed within the minimum interval or has no room left; otherwise `now`
/// is recorded as its last proposal time.
pub fn reserve_proposal_slot(store: &mut ProposalStore, owner_label: &str, now: u64) -> (result:
    Result<(), AgentCommandError>)
    requires
        old(store).wf(),
    ensures
        final(store).wf(),
        ({
            let pending = kept(old(store).pending@, is_live(now));
            let stamps = kept(old(store).last_proposed_at@, is_recent(now));
            &&& final(store).pending@ == pending
            &&& result == (if proposed_too_recently(stamps, owner_label@, now) {
                Err(AgentCommandError::ProposalRateLimited)
            } else if limit_reached(pending, owner_label@) {
                Err(AgentCommandError::ProposalLimitReached)
            } else {
                Ok(())
            })
            &&& result is Err ==> final(store).last_proposed_at@ == stamps
            &&& result is Ok ==> index_of_owner(final(store).last_proposed_at@, owner_label@) >= 0
                && final(store).last_proposed_at@[index_of_owner(
                final(store).last_proposed_at@,
                owner_label@,
            )].proposed_at == now
        }),
{
    cleanup_store(store, now);
    proof {
        lemma_index_of_owner(store.last_proposed_at@, owner_label@);
    }
    let found = find_owner(&store.last_proposed_at, owner_label);
    match found {
        Some(i) => {
            let last = store.last_proposed_at[i].proposed_at;
            let age: u64 = if now >= last {
                now - last
            } else {
                0
            };
            if age < MIN_PROPOSAL_INTERVAL_MS {
                return Err(AgentCommandError::ProposalRateLimited);
            }
        },
        None => {},
    }
    let limits = enforce_store_limits(store, owner_label);
    if limits.is_err() {
        return limits;
    }
    match found {
        Some(i) => {
            let ghost before = store.last_proposed_at@;
            let mut stamp = store.last_proposed_at.remove(i);
            stamp.proposed_at = now;
            store.last_proposed_at.insert(i, stamp);
            assert(store.last_proposed_at@ =~= before.update(i as int, stamp));
            proof {
                assert forall|k: int| 0 <= k < store.last_proposed_at@.len() implies #[trigger] stamp_owner(
                    store.last_proposed_at@[k],
                ) == stamp_owner(before[k]) by {}
                lemma_index_of_owner(store.last_proposed_at@, owner_label@);
                lemma_first_owner_index(store.last_proposed_at@, owner_label@, i as int);
            }
        },
        None => {
            let ghost before = store.last_proposed_at@;
            let copy = owned_copy(owner_label);
            store.last_proposed_at.push(OwnerStamp { owner_label: copy, proposed_at: now });
            proof {
                assert(store.last_proposed_at@.drop_last() =~= before);
                assert forall|a: int, b: int| 0 <= a < b < store.last_proposed_at@.len() implies stamp_owner(
                    store.last_proposed_at@[a],
                ) != stamp_owner(store.last_proposed_at@[b]) by {
                    if b == before.len() {
                        assert(before[a].owner_label@ != owner_label@);
                    } else {
                        assert(stamp_owner(before[a]) != stamp_owner(before[b]));
                    }
                }
            }
        },
    }
    Ok(())
}

/// In a sequence without repeated owners, the one position that holds `owner` is its index.
proof fn lemma_first_owner_index(stamps: Seq<OwnerStamp>, owner: Seq<char>, i: int)
    requires
        keys_distinct(stamps, |s: OwnerStamp| stamp_owner(s)),
        0 <= i < stamps.len(),
        stamps[i].owner_label@ == owner,
    ensures
        index_of_owner(stamps, owner) == i,
    decreases stamps.len(),
{
    if i < stamps.len() - 1 {
        assert(stamp_owner(stamps[i]) != stamp_owner(stamps[stamps.len() - 1]));
        let rest = stamps.drop_last();
        assert(keys_distinct(rest, |s: OwnerStamp| stamp_owner(s))) by {
            assert forall|a: int, b: int| 0 <= a < b < rest.len() implies stamp_owner(rest[a])
                != stamp_owner(rest[b]) by {
                assert(stamp_owner(stamps[a]) != stamp_owner(stamps[b]));
            }
        }
        lemma_first_owner_index(rest, owner, i);
    }
}

/// A copy of the label as an owned `String`.
fn owned_copy(label: &str) -> (copy: String)
    ensures
        copy@ == label@,
{
    label.to_owned()
}

/// The decisions that `execute` makes on a proposal taken from the store before it asks for
/// confirmation: the digest must match, and the proposal must not have lapsed at `now`.
pub fn check_pending(pending: &PendingProposal, digest: &str, now: u64) -> (result: Result<
    (),
    AgentCommandError,
>)
    ensures
        result == (if pending.proposal.digest@ != digest@ {
            Err(AgentCommandError::ProposalDigestMismatch)
        } else if pending.expires_at <= now {
            Err(AgentCommandError::ProposalExpired)
        } else {
            Ok(())
        }),
{
    if !str_equal(pending.proposal.digest.as_str(), digest) {
        return Err(AgentCommandError::ProposalDigestMismatch);
    }
    if pending.expires_at <= now {
        return Err(AgentCommandError::ProposalExpired);
    }
    Ok(())
}

/// When a proposal created at `created_at` (wall-clock milliseconds) lapses.
pub fn proposal_expiry(created_at: i64) -> (expires_at: i64)
    requires
        created_at + PROPOSAL_TTL_MS <= i64::MAX,
    ensures
        expires_at == created_at + PROPOSAL_TTL_MS,
{
    created_at + PROPOSAL_TTL_MS as i64
}

/// The proposal that `propose` hands out for a planned action: it carries the plan's risk,
/// impacts and changes, lapses `PROPOSAL_TTL_MS` after `created_at`, and always asks for
/// confirmation. The digest is computed by the caller over the id, the action, the revision and
/// the expiry.
pub fn build_proposal(
    id: String,
    digest: String,
    action: AgentActionRequest,
    plan: ActionPlan,
    snapshot_revision: String,
    created_at: i64,
) -> (proposal: AgentProposal)
    requires
        created_at + PROPOSAL_TTL_MS <= i64::MAX,
    ensures
        proposal.id@ == id@,
        proposal.digest@ == digest@,
        proposal.action == action,
        proposal.risk == plan.risk,
        proposal.impacts@ == plan.impacts@,
        proposal.changes@ == plan.changes@,
        proposal.snapshot_revision@ == snapshot_revision@,
        proposal.created_at == created_at,
        proposal.expires_at == created_at + PROPOSAL_TTL_MS,
        proposal.requires_confirmation,
{
    let expires_at = proposal_expiry(created_at);
    AgentProposal {
        id,
        digest,
        action,
        risk: plan.risk,
        impacts: plan.impacts,
        changes: plan.changes,
        snapshot_revision,
        created_at,
        expires_at,
        requires_confirmation: true,
    }
}

/// The last step of `execute`: the snapshot taken after the action must show the proposal's
/// target state, or the execution ends in `VerificationFailed`.
pub fn finish_execution(
    proposal: &AgentProposal,
    preconditions: &ActionPreconditions,
    snapshot: AgentNetworkSnapshot,
) -> (result: Result<AgentActionResult, AgentCommandError>)
    ensures
        result is Ok <==> action_verified(snapshot, proposal.action, *preconditions),
        result matches Err(e) ==> e == AgentCommandError::VerificationFailed,
        result matches Ok(r) ==> {
            &&& r.proposal_id@ == proposal.id@
            &&& r.action == proposal.action.spec_kind()
            &&& r.verified
            &&& r.snapshot == snapshot
        },
{
    if !verify_action(&snapshot, &proposal.action, preconditions) {
        return Err(AgentCommandError::VerificationFailed);
    }
    Ok(AgentActionResult {
        proposal_id: owned_copy(proposal.id.as_str()),
        action: proposal.action.kind(),
        verified: true,
        snapshot,
    })
}

/// Whether a proposal reference is exactly `length` lowercase hexadecimal digits.
pub fn is_fixed_lower_hex(value: &str, length: usize) -> (valid: bool)
    ensures
        valid == is_lower_hex_text(value@, length as nat),
{
    is_lower_hex(value, length)
}

/// The store is within its bounds: at most the total limit of proposals, and no owner over its
/// share.
pub open spec fn within_limits(entries: Seq<PendingEntry>) -> bool {
    &&& entries.len() <= MAX_PENDING_PROPOSALS
    &&& forall|owner: Seq<char>| #[trigger] owner_count(entries, owner) <= MAX_PENDING_PER_OWNER
}

proof fn lemma_owner_count_kept(s: Seq<PendingEntry>, keep: spec_fn(PendingEntry) -> bool, owner: Seq<char>)
    ensures
        owner_count(kept(s, keep), owner) <= owner_count(s, owner),
        kept(s, keep).len() <= s.len(),
    decreases s.len(),
{
    if s.len() > 0 {
        lemma_owner_count_kept(s.drop_last(), keep, owner);
        if keep(s.last()) {
            assert(kept(s, keep).drop_last() =~= kept(s.drop_last(), keep));
        }
    }
}

proof fn lemma_owner_count_concat(a: Seq<PendingEntry>, b: Seq<PendingEntry>, owner: Seq<char>)
    ensures
        owner_count(a + b, owner) == owner_count(a, owner) + owner_count(b, owner),
    decreases b.len(),
{
    if b.len() == 0 {
        assert(a + b =~= a);
    } else {
        lemma_owner_count_concat(a, b.drop_last(), owner);
        assert((a + b).drop_last() =~= a + b.drop_last());
    }
}

proof fn lemma_owner_count_remove(s: Seq<PendingEntry>, i: int, owner: Seq<char>)
    requires
        0 <= i < s.len(),
    ensures
        owner_count(s.remove(i), owner) <= owner_count(s, owner),
{
    let head = s.take(i);
    let tail = s.skip(i + 1);
    assert(s.remove(i) =~= head + tail);
    assert(s =~= head + seq![s[i]] + tail);
    lemma_owner_count_concat(head, tail, owner);
    lemma_owner_count_concat(head + seq![s[i]], tail, owner);
    lemma_owner_count_concat(head, seq![s[i]], owner);
    assert(seq![s[i]].drop_last() =~= Seq::<PendingEntry>::empty());
}

/// An insertion keeps the store within its bounds: whatever the store held, a proposal that
/// `insert_proposal` accepts leaves at most the total limit pending, and no owner over its share.
pub proof fn lemma_insert_keeps_store_within_limits(
    pending: Seq<PendingEntry>,
    now: u64,
    entry: PendingEntry,
)
    requires
        within_limits(pending),
        !limit_reached(kept(pending, is_live(now)), entry.pending.owner_label@),
    ensures
        within_limits(without_id(kept(pending, is_live(now)), entry.id@).push(entry)),
{
    let live = kept(pending, is_live(now));
    let reduced = without_id(live, entry.id@);
    let after = reduced.push(entry);
    lemma_index_of_id(live, entry.id@);
    assert(reduced.len() <= live.len());
    assert forall|owner: Seq<char>| #[trigger] owner_count(after, owner) <= MAX_PENDING_PER_OWNER by {
        lemma_owner_count_kept(pending, is_live(now), owner);
        if 0 <= index_of_id(live, entry.id@) {
            lemma_owner_count_remove(live, index_of_id(live, entry.id@), owner);
        }
        assert(after.drop_last() =~= reduced);
        if owner == entry.pending.owner_label@ {
            assert(owner_count(live, owner) < MAX_PENDING_PER_OWNER);
        } else {
            assert(owner_count(pending, owner) <= MAX_PENDING_PER_OWNER);
        }
    }
}

/// A proposal that is taken leaves the store for good: no entry under its id remains.
pub proof fn lemma_taken_proposal_is_gone(pending: Seq<PendingEntry>, i: int)
    requires
        keys_distinct(pending, |e: PendingEntry| entry_id(e)),
        0 <= i < pending.len(),
    ensures
        index_of_id(pending.remove(i), pending[i].id@) == -1,
{
    let rest = pending.remove(i);
    assert forall|k: int| 0 <= k < rest.len() implies #[trigger] rest[k].id@ != pending[i].id@ by {
        let k2 = if k < i { k } else { k + 1 };
        assert(rest[k] == pending[k2]);
        if k2 < i {
            assert(entry_id(pending[k2]) != entry_id(pending[i]));
        } else {
            assert(entry_id(pending[i]) != entry_id(pending[k2]));
        }
    }
    lemma_absent_id(rest, pending[i].id@);
}

proof fn lemma_absent_id(entries: Seq<PendingEntry>, id: Seq<char>)
    requires
        forall|k: int| 0 <= k < entries.len() ==> #[trigger] entries[k].id@ != id,
    ensures
        index_of_id(entries, id) == -1,
    decreases entries.len(),
{
    if entries.len() > 0 {
        let rest = entries.drop_last();
        assert forall|k: int| 0 <= k < rest.len() implies #[trigger] rest[k].id@ != id by {
            assert(rest[k] == entries[k]);
        }
        assert(entries[entries.len() - 1].id@ != id);
        lemma_absent_id(rest, id);
    }
}

/// Cleanup leaves exactly the live proposals: none that has lapsed at `now`, and every one
/// that has not.
pub proof fn lemma_cleanup_keeps_exactly_the_live_proposals(pending: Seq<PendingEntry>, now: u64)
    ensures
        forall|e: PendingEntry| #[trigger] kept(pending, is_live(now)).contains(e) <==> (
            pending.contains(e) && e.pending.expires_at > now),
    decreases pending.len(),
{
    lemma_kept_contained(pending, is_live(now));
    if pending.len() > 0 {
        lemma_cleanup_keeps_exactly_the_live_proposals(pending.drop_last(), now);
        let rest = kept(pending.drop_last(), is_live(now));
        assert forall|e: PendingEntry| pending.contains(e) && e.pending.expires_at > now implies #[trigger] kept(
            pending,
            is_live(now),
        ).contains(e) by {
            let k = choose|k: int| 0 <= k < pending.len() && pending[k] == e;
            if k == pending.len() - 1 {
                assert(kept(pending, is_live(now)) == rest.push(e));
                assert(rest.push(e)[rest.len() as int] == e);
            } else {
                assert(pending.drop_last()[k] == e);
                assert(rest.contains(e));
                let j = choose|j: int| 0 <= j < rest.len() && rest[j] == e;
                if is_live(now)(pending.last()) {
                    assert(rest.push(pending.last())[j] == e);
                }
            }
        }
    }
}

} // verus!
