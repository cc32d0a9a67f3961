//! The autonomy policy: a short-lived, memory-only grant that lets the agent run a bounded
//! number of allowlisted actions, one at a time, within the current desktop session.
use vstd::prelude::*;

use crate::model::AgentActionKind;

verus! {

pub const AUTONOMY_POLICY_SCHEMA_VERSION: u16 = 1;

pub const MAX_AUTONOMY_DURATION_SECONDS: u32 = 30 * 60;

pub const MAX_AUTONOMY_ACTIONS: u16 = 32;

#[derive(Debug, Clone, Copy, PartialEq, Eq, Structural)]
pub enum AgentAutonomyScope {
    CurrentDesktopSession,
}

#[derive(Debug, Clone, Copy, PartialEq, Eq, Structural)]
pub enum AgentAutonomyPolicyStatus {
    Disabled,
    Active,
    Expired,
    Revoked,
    SessionMismatch,
    SchemaVersionMismatch,
    ScopeMismatch,
    EmptyAllowlist,
    ActionNotAllowed,
    DurationOutOfRange,
    ActionBudgetOutOfRange,
    ActionBudgetExhausted,
    ActionInFlight,
}

#[derive(Debug, Clone, PartialEq, Eq)]
pub struct AgentAutonomyPolicyRequest {
    pub schema_version: u16,
    pub scope: AgentAutonomyScope,
    pub allowlist: Vec<AgentActionKind>,
    pub duration_seconds: u32,
    pub max_actions: u16,
}

#[derive(Debug, Clone, PartialEq, Eq)]
pub struct AgentAutonomyPolicySnapshot {
    pub schema_version: u16,
    pub enabled: bool,
    pub scope: AgentAutonomyScope,
    pub allowlist: Vec<AgentActionKind>,
    pub issued_at: i64,
    pub expires_at: i64,
    pub max_actions: u16,
    pub remaining_actions: u16,
    pub generation: u64,
    pub status: AgentAutonomyPolicyStatus,
}

#[derive(Debug, Clone, PartialEq, Eq)]
pub enum AgentAutonomyPolicyResult {
    Authorized { policy: AgentAutonomyPolicySnapshot },
    Rejected { reason: AgentAutonomyPolicyStatus },
}

/// The one action that a policy may allow.
pub open spec fn autonomous_action() -> AgentActionKind {
    AgentActionKind::ReconnectTelemetry
}

/// Why a policy request is refused, in the order the checks run; `None` when it is valid.
pub open spec fn policy_rejection(
    schema_version: u16,
    scope: AgentAutonomyScope,
    allowlist: Seq<AgentActionKind>,
    duration_seconds: u32,
    max_actions: u16,
) -> Option<AgentAutonomyPolicyStatus> {
    if schema_version != AUTONOMY_POLICY_SCHEMA_VERSION {
        Some(AgentAutonomyPolicyStatus::SchemaVersionMismatch)
    } else if scope != AgentAutonomyScope::CurrentDesktopSession {
        Some(AgentAutonomyPolicyStatus::ScopeMismatch)
    } else if allowlist.len() == 0 {
        Some(AgentAutonomyPolicyStatus::EmptyAllowlist)
    } else if exists|i: int| 0 <= i < allowlist.len() && allowlist[i] != autonomous_action() {
        Some(AgentAutonomyPolicyStatus::ActionNotAllowed)
    } else if duration_seconds == 0 || duration_seconds > MAX_AUTONOMY_DURATION_SECONDS {
        Some(AgentAutonomyPolicyStatus::DurationOutOfRange)
    } else if max_actions == 0 || max_actions > MAX_AUTONOMY_ACTIONS {
        Some(AgentAutonomyPolicyStatus::ActionBudgetOutOfRange)
    } else {
        None
    }
}

/// `a + b` for a nonnegative `b`, held at the largest `i64`.
pub open spec fn saturating_add_i64(a: i64, b: int) -> i64 {
    if a + b > i64::MAX {
        i64::MAX
    } else {
        (a + b) as i64
    }
}

/// `a + 1`, held at the largest `u64`.
pub open spec fn next_generation(a: u64) -> u64 {
    if a == u64::MAX {
        a
    } else {
        (a + 1) as u64
    }
}

/// The snapshot of a store without an active policy.
pub open spec fn is_inactive_snapshot(
    snapshot: AgentAutonomyPolicySnapshot,
    generation: u64,
    status: AgentAutonomyPolicyStatus,
) -> bool {
    &&& snapshot.schema_version == AUTONOMY_POLICY_SCHEMA_VERSION
    &&& !snapshot.enabled
    &&& snapshot.scope == AgentAutonomyScope::CurrentDesktopSession
    &&& snapshot.allowlist@.len() == 0
    &&& snapshot.issued_at == 0
    &&& snapshot.expires_at == 0
    &&& snapshot.max_actions == 0
    &&& snapshot.remaining_actions == 0
    &&& snapshot.generation == generation
    &&& snapshot.status == status
}

pub fn inactive_snapshot(generation: u64, status: AgentAutonomyPolicyStatus) -> (snapshot:
    AgentAutonomyPolicySnapshot)
    ensures
        is_inactive_snapshot(snapshot, generation, status),
{
    AgentAutonomyPolicySnapshot {
        schema_version: AUTONOMY_POLICY_SCHEMA_VERSION,
        enabled: false,
        scope: AgentAutonomyScope::CurrentDesktopSession,
        allowlist: Vec::new(),
        issued_at: 0,
        expires_at: 0,
        max_actions: 0,
        remaining_actions: 0,
        generation,
        status,
    }
}

/// A granted policy and the session it was granted in.
pub struct ActivePolicy {
    pub snapshot: AgentAutonomyPolicySnapshot,
    pub session_nonce: [u8; 32],
}

/// The policy store: a counter that every change of policy moves on, the current session,
/// the status to report when no policy is active, the active policy, and the actions running.
pub struct AgentAutonomyPolicyStore {
    pub generation: u64,
    pub session_nonce: [u8; 32],
    pub terminal_status: AgentAutonomyPolicyStatus,
    pub active: Option<ActivePolicy>,
    pub in_flight: Vec<AgentActionKind>,
}

/// A permission to run one action, held until it is released.
pub struct AgentAutonomyLease {
    pub action: AgentActionKind,
    pub generation: u64,
}

/// Why the active policy no longer holds at `now`: it was granted in another session, or it
/// has expired.
pub open spec fn invalidity(store: AgentAutonomyPolicyStore, now: i64) -> Option<
    AgentAutonomyPolicyStatus,
> {
    match store.active {
        Some(policy) => if policy.session_nonce@ != store.session_nonce@ {
            Some(AgentAutonomyPolicyStatus::SessionMismatch)
        } else if policy.snapshot.expires_at <= now {
            Some(AgentAutonomyPolicyStatus::Expired)
        } else {
            None
        },
        None => None,
    }
}

fn same_nonce(a: &[u8; 32], b: &[u8; 32]) -> (same: bool)
    ensures
        same == (a@ == b@),
{
    let mut i: usize = 0;
    while i < 32
        invariant
            i <= 32,
            a@.len() == 32 && b@.len() == 32,
            forall|j: int| 0 <= j < i ==> a@[j] == b@[j],
        decreases 32 - i,
    {
        if a[i] != b[i] {
            assert(a@[i as int] != b@[i as int]);
            return false;
        }
        i = i + 1;
    }
    assert(a@ =~= b@);
    true
}

/// Ends a policy that no longer holds: it is dropped with the running actions, the generation
/// moves on, and the reason becomes the reported status.
pub fn normalize_invalid(store: &mut AgentAutonomyPolicyStore, now: i64)
    ensures
        final(store).session_nonce == old(store).session_nonce,
        match invalidity(*old(store), now) {
            Some(status) => {
                &&& final(store).active is None
                &&& final(store).in_flight@.len() == 0
                &&& final(store).generation == next_generation(old(store).generation)
                &&& final(store).terminal_status == status
            },
            None => *final(store) == *old(store),
        },
{
    let status = match &store.active {
        Some(policy) => {
            if !same_nonce(&policy.session_nonce, &store.session_nonce) {
                Some(AgentAutonomyPolicyStatus::SessionMismatch)
            } else if policy.snapshot.expires_at <= now {
                Some(AgentAutonomyPolicyStatus::Expired)
            } else {
                None
            }
        },
        None => None,
    };
    match status {
        Some(status) => {
            store.active = None;
            store.in_flight = Vec::new();
            store.generation = store.generation.saturating_add(1);
            store.terminal_status = status;
        },
        None => {},
    }
}

impl AgentAutonomyPolicyStore {
    /// A store without a policy, for the session identified by `session_nonce`.
    pub fn new(session_nonce: [u8; 32]) -> (store: AgentAutonomyPolicyStore)
        ensures
            store.generation == 0,
            store.session_nonce == session_nonce,
            store.terminal_status == AgentAutonomyPolicyStatus::Disabled,
            store.active is None,
            store.in_flight@.len() == 0,
    {
        AgentAutonomyPolicyStore {
            generation: 0,
            session_nonce,
            terminal_status: AgentAutonomyPolicyStatus::Disabled,
            active: None,
            in_flight: Vec::new(),
        }
    }

    /// Grants a policy: a refused request changes nothing; an accepted one replaces any policy,
    /// allows exactly the one autonomous action, and expires `duration_seconds` after `now`.
    pub fn authorize(&mut self, request: AgentAutonomyPolicyRequest, now: i64) -> (result:
        AgentAutonomyPolicyResult)
        ensures
            match policy_rejection(
                request.schema_version,
                request.scope,
                request.allowlist@,
                request.duration_seconds,
                request.max_actions,
            ) {
                Some(reason) => result == AgentAutonomyPolicyResult::Rejected { reason }
                    && *final(self) == *old(self),
                None => match result {
                    AgentAutonomyPolicyResult::Authorized { policy } => {
                        &&& policy.schema_version == AUTONOMY_POLICY_SCHEMA_VERSION
                        &&& policy.enabled
                        &&& policy.scope == AgentAutonomyScope::CurrentDesktopSession
                        &&& policy.allowlist@ == seq![autonomous_action()]
                        &&& policy.issued_at == now
                        &&& policy.expires_at == saturating_add_i64(
                            now,
                            request.duration_seconds as int,
                        )
                        &&& policy.max_actions == request.max_actions
                        &&& policy.remaining_actions == request.max_actions
                        &&& policy.generation == next_generation(old(self).generation)
                        &&& policy.status == AgentAutonomyPolicyStatus::Active
                        &&& final(self).generation == policy.generation
                        &&& final(self).terminal_status == AgentAutonomyPolicyStatus::Active
                        &&& final(self).session_nonce == old(self).session_nonce
                        &&& final(self).in_flight == old(self).in_flight
                        &&& final(self).active matches Some(active) && snapshot_copy(
                            active.snapshot,
                            policy,
                        ) && active.session_nonce == old(self).session_nonce
                    },
                    AgentAutonomyPolicyResult::Rejected { .. } => false,
                },
            },
    {
        let rejected = if request.schema_version != AUTONOMY_POLICY_SCHEMA_VERSION {
            Some(AgentAutonomyPolicyStatus::SchemaVersionMismatch)
        } else if request.scope != AgentAutonomyScope::CurrentDesktopSession {
            Some(AgentAutonomyPolicyStatus::ScopeMismatch)
        } else if request.allowlist.len() == 0 {
            Some(AgentAutonomyPolicyStatus::EmptyAllowlist)
        } else {
            let mut other = false;
            let mut i: usize = 0;
            while i < request.allowlist.len()
                invariant
                    i <= request.allowlist@.len(),
                    other == (exists|j: int|
                        0 <= j < i && request.allowlist@[j] != autonomous_action()),
                decreases request.allowlist@.len() - i,
            {
                if request.allowlist[i] != AgentActionKind::ReconnectTelemetry {
                    other = true;
                }
                i = i + 1;
            }
            if other {
                Some(AgentAutonomyPolicyStatus::ActionNotAllowed)
            } else if request.duration_seconds == 0 || request.duration_seconds
                > MAX_AUTONOMY_DURATION_SECONDS {
                Some(AgentAutonomyPolicyStatus::DurationOutOfRange)
            } else if request.max_actions == 0 || request.max_actions > MAX_AUTONOMY_ACTIONS {
                Some(AgentAutonomyPolicyStatus::ActionBudgetOutOfRange)
            } else {
                None
            }
        };
        match rejected {
            Some(reason) => {
                return AgentAutonomyPolicyResult::Rejected { reason };
            },
            None => {},
        }
        self.generation = self.generation.saturating_add(1);
        let duration: i64 = request.duration_seconds as i64;
        let expires_at: i64 = if now > i64::MAX - duration {
            i64::MAX
        } else {
            now + duration
        };
        let mut allowlist: Vec<AgentActionKind> = Vec::new();
        allowlist.push(AgentActionKind::ReconnectTelemetry);
        let snapshot = AgentAutonomyPolicySnapshot {
            schema_version: AUTONOMY_POLICY_SCHEMA_VERSION,
            enabled: true,
            scope: AgentAutonomyScope::CurrentDesktopSession,
            allowlist,
            issued_at: now,
            expires_at,
            max_actions: request.max_actions,
            remaining_actions: request.max_actions,
            generation: self.generation,
            status: AgentAutonomyPolicyStatus::Active,
        };
        let kept = AgentAutonomyPolicySnapshot {
            schema_version: snapshot.schema_version,
            enabled: snapshot.enabled,
            scope: snapshot.scope,
            allowlist: copy_actions(&snapshot.allowlist),
            issued_at: snapshot.issued_at,
            expires_at: snapshot.expires_at,
            max_actions: snapshot.max_actions,
            remaining_actions: snapshot.remaining_actions,
            generation: snapshot.generation,
            status: snapshot.status,
        };
        self.terminal_status = AgentAutonomyPolicyStatus::Active;
        self.active = Some(ActivePolicy { snapshot: kept, session_nonce: self.session_nonce });
        proof {
            assert(kept.allowlist@ =~= snapshot.allowlist@);
        }
        AgentAutonomyPolicyResult::Authorized { policy: snapshot }
    }

    /// The policy as it stands at `now`, after ending one that no longer holds.
    pub fn snapshot(&mut self, now: i64) -> (snapshot: AgentAutonomyPolicySnapshot)
        ensures
            final(self).session_nonce == old(self).session_nonce,
            invalidity(*final(self), now) is None,
            match final(self).active {
                Some(policy) => snapshot_copy(snapshot, policy.snapshot),
                None => is_inactive_snapshot(
                    snapshot,
                    final(self).generation,
                    final(self).terminal_status,
                ),
            },
            invalidity(*old(self), now) is None ==> *final(self) == *old(self),
            invalidity(*old(self), now) matches Some(status) ==> is_inactive_snapshot(
                snapshot,
                next_generation(old(self).generation),
                status,
            ),
    {
        normalize_invalid(self, now);
        match &self.active {
            Some(policy) => copy_snapshot(&policy.snapshot),
            None => inactive_snapshot(self.generation, self.terminal_status),
        }
    }

    /// Withdraws any policy: the generation moves on and the store reports it as revoked.
    pub fn revoke(&mut self, now: i64) -> (snapshot: AgentAutonomyPolicySnapshot)
        ensures
            final(self).active is None,
            final(self).in_flight@.len() == 0,
            final(self).terminal_status == AgentAutonomyPolicyStatus::Revoked,
            final(self).session_nonce == old(self).session_nonce,
            final(self).generation == next_generation(
                if invalidity(*old(self), now) is Some {
                    next_generation(old(self).generation)
                } else {
                    old(self).generation
                },
            ),
            is_inactive_snapshot(
                snapshot,
                final(self).generation,
                AgentAutonomyPolicyStatus::Revoked,
            ),
    {
        normalize_invalid(self, now);
        self.generation = self.generation.saturating_add(1);
        self.terminal_status = AgentAutonomyPolicyStatus::Revoked;
        self.active = None;
        self.in_flight = Vec::new();
        inactive_snapshot(self.generation, AgentAutonomyPolicyStatus::Revoked)
    }

    /// Takes a lease to run `action` at `now`: only the autonomous action, only under a policy
    /// that holds and allows it, only while budget remains, and never twice at once.
    pub fn try_acquire(&mut self, action: AgentActionKind, now: i64) -> (result: Result<
        AgentAutonomyLease,
        AgentAutonomyPolicyStatus,
    >)
        ensures
            final(self).session_nonce == old(self).session_nonce,
            match (result, acquire_result(*old(self), action, now)) {
                (Ok(lease), Ok(generation)) => lease.action == action && lease.generation
                    == generation,
                (Err(refused), Err(expected)) => refused == expected,
                _ => false,
            },
            action != autonomous_action() ==> result == Err::<AgentAutonomyLease, _>(
                AgentAutonomyPolicyStatus::ActionNotAllowed,
            ) && *final(self) == *old(self),
            action == autonomous_action() ==> match invalidity(*old(self), now) {
                Some(status) => result == Err::<AgentAutonomyLease, _>(status),
                None => match old(self).active {
                    None => result == Err::<AgentAutonomyLease, _>(old(self).terminal_status)
                        && *final(self) == *old(self),
                    Some(policy) => if !policy.snapshot.allowlist@.contains(action) {
                        result == Err::<AgentAutonomyLease, _>(
                            AgentAutonomyPolicyStatus::ActionNotAllowed,
                        ) && *final(self) == *old(self)
                    } else if policy.snapshot.remaining_actions == 0 {
                        result == Err::<AgentAutonomyLease, _>(
                            AgentAutonomyPolicyStatus::ActionBudgetExhausted,
                        ) && *final(self) == *old(self)
                    } else if old(self).in_flight@.contains(action) {
                        result == Err::<AgentAutonomyLease, _>(
                            AgentAutonomyPolicyStatus::ActionInFlight,
                        ) && *final(self) == *old(self)
                    } else {
                        &&& result matches Ok(lease) && lease.action == action && lease.generation
                            == policy.snapshot.generation
                        &&& final(self).in_flight@ == old(self).in_flight@.push(action)
                        &&& final(self).generation == old(self).generation
                        &&& final(self).active matches Some(after) && after.snapshot.remaining_actions
                            == policy.snapshot.remaining_actions - 1 && after.snapshot.generation
                            == policy.snapshot.generation && after.snapshot.expires_at
                            == policy.snapshot.expires_at && after.snapshot.allowlist@
                            == policy.snapshot.allowlist@ && after.session_nonce
                            == policy.session_nonce
                    },
                },
            },
    {
        if action != AgentActionKind::ReconnectTelemetry {
            return Err(AgentAutonomyPolicyStatus::ActionNotAllowed);
        }
        normalize_invalid(self, now);
        let terminal_status = self.terminal_status;
        let generation: u64;
        match &self.active {
            None => {
                return Err(terminal_status);
            },
            Some(policy) => {
                if !contains_action(&policy.snapshot.allowlist, action) {
                    return Err(AgentAutonomyPolicyStatus::ActionNotAllowed);
                }
                if policy.snapshot.remaining_actions == 0 {
                    return Err(AgentAutonomyPolicyStatus::ActionBudgetExhausted);
                }
                generation = policy.snapshot.generation;
            },
        }
        if contains_action(&self.in_flight, action) {
            return Err(AgentAutonomyPolicyStatus::ActionInFlight);
        }
        self.in_flight.push(action);
        let taken = self.active.take();
        match taken {
            Some(mut policy) => {
                policy.snapshot.remaining_actions = policy.snapshot.remaining_actions - 1;
                self.active = Some(policy);
            },
            None => {},
        }
        Ok(AgentAutonomyLease { action, generation })
    }

    /// Ends a lease: its action is no longer running.
    pub fn release(&mut self, lease: AgentAutonomyLease)
        ensures
            final(self).in_flight@ == remove_action(old(self).in_flight@, lease.action),
            final(self).generation == old(self).generation,
            final(self).session_nonce == old(self).session_nonce,
            final(self).terminal_status == old(self).terminal_status,
            final(self).active == old(self).active,
    {
        let mut kept: Vec<AgentActionKind> = Vec::new();
        let mut i: usize = 0;
        while i < self.in_flight.len()
            invariant
                i <= self.in_flight@.len(),
                kept@ == remove_action(self.in_flight@.take(i as int), lease.action),
            decreases self.in_flight@.len() - i,
        {
            assert(self.in_flight@.take(i + 1).drop_last() =~= self.in_flight@.take(i as int));
            if self.in_flight[i] != lease.action {
                kept.push(self.in_flight[i]);
            }
            i = i + 1;
        }
        assert(self.in_flight@.take(self.in_flight@.len() as int) =~= self.in_flight@);
        self.in_flight = kept;
    }

    /// Starts a new desktop session: a policy granted before no longer holds.
    pub fn replace_session_nonce(&mut self, session_nonce: [u8; 32])
        ensures
            final(self).session_nonce == session_nonce,
            final(self).generation == old(self).generation,
            final(self).terminal_status == old(self).terminal_status,
            final(self).active == old(self).active,
            final(self).in_flight == old(self).in_flight,
    {
        self.session_nonce = session_nonce;
    }
}

/// The actions without `action`, in order.
pub open spec fn remove_action(s: Seq<AgentActionKind>, action: AgentActionKind) -> Seq<
    AgentActionKind,
>
    decreases s.len(),
{
    if s.len() == 0 {
        s
    } else if s.last() == action {
        remove_action(s.drop_last(), action)
    } else {
        remove_action(s.drop_last(), action).push(s.last())
    }
}

fn contains_action(actions: &Vec<AgentActionKind>, action: AgentActionKind) -> (found: bool)
    ensures
        found == actions@.contains(action),
{
    let mut i: usize = 0;
    while i < actions.len()
        invariant
            i <= actions@.len(),
            forall|j: int| 0 <= j < i ==> actions@[j] != action,
        decreases actions@.len() - i,
    {
        if actions[i] == action {
            assert(actions@[i as int] == action);
            return true;
        }
        i = i + 1;
    }
    false
}

fn copy_actions(actions: &Vec<AgentActionKind>) -> (copy: Vec<AgentActionKind>)
    ensures
        copy@ == actions@,
{
    let mut copy: Vec<AgentActionKind> = Vec::new();
    let mut i: usize = 0;
    while i < actions.len()
        invariant
            i <= actions@.len(),
            copy@ == actions@.take(i as int),
        decreases actions@.len() - i,
    {
        copy.push(actions[i]);
        assert(actions@.take(i + 1) =~= actions@.take(i as int).push(actions@[i as int]));
        i = i + 1;
    }
    assert(actions@.take(actions@.len() as int) =~= actions@);
    copy
}

/// Whether two snapshots hold the same values.
pub open spec fn snapshot_copy(a: AgentAutonomyPolicySnapshot, b: AgentAutonomyPolicySnapshot) -> bool {
    &&& a.schema_version == b.schema_version
    &&& a.enabled == b.enabled
    &&& a.scope == b.scope
    &&& a.allowlist@ == b.allowlist@
    &&& a.issued_at == b.issued_at
    &&& a.expires_at == b.expires_at
    &&& a.max_actions == b.max_actions
    &&& a.remaining_actions == b.remaining_actions
    &&& a.generation == b.generation
    &&& a.status == b.status
}

fn copy_snapshot(snapshot: &AgentAutonomyPolicySnapshot) -> (copy: AgentAutonomyPolicySnapshot)
    ensures
        snapshot_copy(copy, *snapshot),
{
    AgentAutonomyPolicySnapshot {
        schema_version: snapshot.schema_version,
        enabled: snapshot.enabled,
        scope: snapshot.scope,
        allowlist: copy_actions(&snapshot.allowlist),
        issued_at: snapshot.issued_at,
        expires_at: snapshot.expires_at,
        max_actions: snapshot.max_actions,
        remaining_actions: snapshot.remaining_actions,
        generation: snapshot.generation,
        status: snapshot.status,
    }
}

/// What `try_acquire` decides for `action` at `now`: the generation of the lease it grants,
/// or why it refuses.
pub open spec fn acquire_result(store: AgentAutonomyPolicyStore, action: AgentActionKind, now: i64) -> Result<
    u64,
    AgentAutonomyPolicyStatus,
> {
    if action != autonomous_action() {
        Err(AgentAutonomyPolicyStatus::ActionNotAllowed)
    } else {
        match invalidity(store, now) {
            Some(status) => Err(status),
            None => match store.active {
                None => Err(store.terminal_status),
                Some(policy) => if !policy.snapshot.allowlist@.contains(action) {
                    Err(AgentAutonomyPolicyStatus::ActionNotAllowed)
                } else if policy.snapshot.remaining_actions == 0 {
                    Err(AgentAutonomyPolicyStatus::ActionBudgetExhausted)
                } else if store.in_flight@.contains(action) {
                    Err(AgentAutonomyPolicyStatus::ActionInFlight)
                } else {
                    Ok(policy.snapshot.generation)
                },
            },
        }
    }
}

/// A revoked store grants no lease: every request is refused, and the autonomous action is
/// refused as revoked.
pub proof fn lemma_revoked_store_grants_no_lease(
    store: AgentAutonomyPolicyStore,
    action: AgentActionKind,
    now: i64,
)
    requires
        store.active is None,
        store.terminal_status == AgentAutonomyPolicyStatus::Revoked,
    ensures
        acquire_result(store, action, now) is Err,
        action == autonomous_action() ==> acquire_result(store, action, now) == Err::<
            u64,
            AgentAutonomyPolicyStatus,
        >(AgentAutonomyPolicyStatus::Revoked),
{
}

/// A policy grants nothing from its expiry on: a request at or after `issued_at` plus the
/// granted duration is refused as expired.
pub proof fn lemma_policy_expires_after_its_duration(
    store: AgentAutonomyPolicyStore,
    issued_at: i64,
    duration_seconds: u32,
    now: i64,
)
    requires
        store.active matches Some(policy) && policy.session_nonce@ == store.session_nonce@
            && policy.snapshot.expires_at == saturating_add_i64(issued_at, duration_seconds as int),
        now >= issued_at + duration_seconds,
    ensures
        acquire_result(store, autonomous_action(), now) == Err::<u64, AgentAutonomyPolicyStatus>(
            AgentAutonomyPolicyStatus::Expired,
        ),
{
}

/// A policy granted in another session grants nothing in this one.
pub proof fn lemma_session_change_voids_the_policy(
    store: AgentAutonomyPolicyStore,
    action: AgentActionKind,
    now: i64,
)
    requires
        store.active matches Some(policy) && policy.session_nonce@ != store.session_nonce@,
        action == autonomous_action(),
    ensures
        acquire_result(store, action, now) == Err::<u64, AgentAutonomyPolicyStatus>(
            AgentAutonomyPolicyStatus::SessionMismatch,
        ),
{
}

/// Every lease spends one unit of the budget, so a policy of `n` actions grants at most `n`
/// leases: a policy without budget grants none, and an action that is running is not granted
/// again.
pub proof fn lemma_budget_and_single_flight(
    store: AgentAutonomyPolicyStore,
    action: AgentActionKind,
    now: i64,
)
    requires
        invalidity(store, now) is None,
        store.active matches Some(policy) && (policy.snapshot.remaining_actions == 0
            || store.in_flight@.contains(action)),
    ensures
        acquire_result(store, action, now) is Err,
{
}

} // verus!
