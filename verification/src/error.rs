//! Command errors and the closed audit outcomes they are recorded as.
use vstd::prelude::*;

verus! {

#[derive(Debug, Clone, Copy, PartialEq, Eq, Structural)]
pub enum AgentCommandError {
    ActionNotAvailable,
    ProposalNotFound,
    ProposalExpired,
    ProposalDigestMismatch,
    NetworkStateChanged,
    ProposalRateLimited,
    ProposalLimitReached,
    ConfirmationDeclined,
    ActionFailed,
    PartialApply,
    VerificationFailed,
    BridgeStartFailed,
    HistoryClearFailed,
}

#[derive(Debug, Clone, Copy, PartialEq, Eq, Structural)]
pub enum AgentAuditOutcome {
    Proposed,
    Verified,
    ActionNotAvailable,
    ProposalNotFound,
    ProposalExpired,
    DigestMismatch,
    StateChanged,
    RateLimited,
    LimitReached,
    ConfirmationDeclined,
    ActionFailed,
    PartialApply,
    VerificationFailed,
    BridgeStartFailed,
    HistoryClearFailed,
}

impl AgentCommandError {
    /// The stable public code of the error.
    pub open spec fn code(self) -> Seq<char> {
        match self {
            AgentCommandError::ActionNotAvailable => "agent_action_not_available"@,
            AgentCommandError::ProposalNotFound => "agent_proposal_not_found"@,
            AgentCommandError::ProposalExpired => "agent_proposal_expired"@,
            AgentCommandError::ProposalDigestMismatch => "agent_proposal_digest_mismatch"@,
            AgentCommandError::NetworkStateChanged => "agent_network_state_changed"@,
            AgentCommandError::ProposalRateLimited => "agent_proposal_rate_limited"@,
            AgentCommandError::ProposalLimitReached => "agent_proposal_limit_reached"@,
            AgentCommandError::ConfirmationDeclined => "agent_confirmation_declined"@,
            AgentCommandError::ActionFailed => "agent_action_failed"@,
            AgentCommandError::PartialApply => "agent_action_partially_applied"@,
            AgentCommandError::VerificationFailed => "agent_action_verification_failed"@,
            AgentCommandError::BridgeStartFailed => "agent_bridge_start_failed"@,
            AgentCommandError::HistoryClearFailed => "agent_history_clear_failed"@,
        }
    }

    /// The stable public code of the error, which is also its message.
    pub fn as_str(self) -> (s: &'static str)
        ensures
            s@ == self.code(),
    {
        match self {
            AgentCommandError::ActionNotAvailable => "agent_action_not_available",
            AgentCommandError::ProposalNotFound => "agent_proposal_not_found",
            AgentCommandError::ProposalExpired => "agent_proposal_expired",
            AgentCommandError::ProposalDigestMismatch => "agent_proposal_digest_mismatch",
            AgentCommandError::NetworkStateChanged => "agent_network_state_changed",
            AgentCommandError::ProposalRateLimited => "agent_proposal_rate_limited",
            AgentCommandError::ProposalLimitReached => "agent_proposal_limit_reached",
            AgentCommandError::ConfirmationDeclined => "agent_confirmation_declined",
            AgentCommandError::ActionFailed => "agent_action_failed",
            AgentCommandError::PartialApply => "agent_action_partially_applied",
            AgentCommandError::VerificationFailed => "agent_action_verification_failed",
            AgentCommandError::BridgeStartFailed => "agent_bridge_start_failed",
            AgentCommandError::HistoryClearFailed => "agent_history_clear_failed",
        }
    }

    /// The audit outcome under which a failed command is recorded.
    pub open spec fn spec_audit_outcome(self) -> AgentAuditOutcome {
        match self {
            AgentCommandError::ActionNotAvailable => AgentAuditOutcome::ActionNotAvailable,
            AgentCommandError::ProposalNotFound => AgentAuditOutcome::ProposalNotFound,
            AgentCommandError::ProposalExpired => AgentAuditOutcome::ProposalExpired,
            AgentCommandError::ProposalDigestMismatch => AgentAuditOutcome::DigestMismatch,
            AgentCommandError::NetworkStateChanged => AgentAuditOutcome::StateChanged,
            AgentCommandError::ProposalRateLimited => AgentAuditOutcome::RateLimited,
            AgentCommandError::ProposalLimitReached => AgentAuditOutcome::LimitReached,
            AgentCommandError::ConfirmationDeclined => AgentAuditOutcome::ConfirmationDeclined,
            AgentCommandError::ActionFailed => AgentAuditOutcome::ActionFailed,
            AgentCommandError::PartialApply => AgentAuditOutcome::PartialApply,
            AgentCommandError::VerificationFailed => AgentAuditOutcome::VerificationFailed,
            AgentCommandError::BridgeStartFailed => AgentAuditOutcome::BridgeStartFailed,
            AgentCommandError::HistoryClearFailed => AgentAuditOutcome::HistoryClearFailed,
        }
    }

    pub fn audit_outcome(&self) -> (outcome: AgentAuditOutcome)
        ensures
            outcome == self.spec_audit_outcome(),
    {
        match self {
            AgentCommandError::ActionNotAvailable => AgentAuditOutcome::ActionNotAvailable,
            AgentCommandError::ProposalNotFound => AgentAuditOutcome::ProposalNotFound,
            AgentCommandError::ProposalExpired => AgentAuditOutcome::ProposalExpired,
            AgentCommandError::ProposalDigestMismatch => AgentAuditOutcome::DigestMismatch,
            AgentCommandError::NetworkStateChanged => AgentAuditOutcome::StateChanged,
            AgentCommandError::ProposalRateLimited => AgentAuditOutcome::RateLimited,
            AgentCommandError::ProposalLimitReached => AgentAuditOutcome::LimitReached,
            AgentCommandError::ConfirmationDeclined => AgentAuditOutcome::ConfirmationDeclined,
            AgentCommandError::ActionFailed => AgentAuditOutcome::ActionFailed,
            AgentCommandError::PartialApply => AgentAuditOutcome::PartialApply,
            AgentCommandError::VerificationFailed => AgentAuditOutcome::VerificationFailed,
            AgentCommandError::BridgeStartFailed => AgentAuditOutcome::BridgeStartFailed,
            AgentCommandError::HistoryClearFailed => AgentAuditOutcome::HistoryClearFailed,
        }
    }
}

impl AgentAuditOutcome {
    /// The stable log code of the outcome.
    pub open spec fn code(self) -> Seq<char> {
        match self {
            AgentAuditOutcome::Proposed => "proposed"@,
            AgentAuditOutcome::Verified => "verified"@,
            AgentAuditOutcome::ActionNotAvailable => "action_not_available"@,
            AgentAuditOutcome::ProposalNotFound => "proposal_not_found"@,
            AgentAuditOutcome::ProposalExpired => "proposal_expired"@,
            AgentAuditOutcome::DigestMismatch => "digest_mismatch"@,
            AgentAuditOutcome::StateChanged => "state_changed"@,
            AgentAuditOutcome::RateLimited => "rate_limited"@,
            AgentAuditOutcome::LimitReached => "limit_reached"@,
            AgentAuditOutcome::ConfirmationDeclined => "confirmation_declined"@,
            AgentAuditOutcome::ActionFailed => "action_failed"@,
            AgentAuditOutcome::PartialApply => "partial_apply"@,
            AgentAuditOutcome::VerificationFailed => "verification_failed"@,
            AgentAuditOutcome::BridgeStartFailed => "bridge_start_failed"@,
            AgentAuditOutcome::HistoryClearFailed => "history_clear_failed"@,
        }
    }

    pub fn as_str(self) -> (s: &'static str)
        ensures
            s@ == self.code(),
    {
        match self {
            AgentAuditOutcome::Proposed => "proposed",
            AgentAuditOutcome::Verified => "verified",
            AgentAuditOutcome::ActionNotAvailable => "action_not_available",
            AgentAuditOutcome::ProposalNotFound => "proposal_not_found",
            AgentAuditOutcome::ProposalExpired => "proposal_expired",
            AgentAuditOutcome::DigestMismatch => "digest_mismatch",
            AgentAuditOutcome::StateChanged => "state_changed",
            AgentAuditOutcome::RateLimited => "rate_limited",
            AgentAuditOutcome::LimitReached => "limit_reached",
            AgentAuditOutcome::ConfirmationDeclined => "confirmation_declined",
            AgentAuditOutcome::ActionFailed => "action_failed",
            AgentAuditOutcome::PartialApply => "partial_apply",
            AgentAuditOutcome::VerificationFailed => "verification_failed",
            AgentAuditOutcome::BridgeStartFailed => "bridge_start_failed",
            AgentAuditOutcome::HistoryClearFailed => "history_clear_failed",
        }
    }
}

/// Distinct command errors are recorded under distinct audit outcomes, and none
/// of them is recorded as a proposal or a verified action.
pub proof fn lemma_audit_outcome_injective(a: AgentCommandError, b: AgentCommandError)
    ensures
        a.spec_audit_outcome() == b.spec_audit_outcome() ==> a == b,
        a.spec_audit_outcome() != AgentAuditOutcome::Proposed,
        a.spec_audit_outcome() != AgentAuditOutcome::Verified,
{
}

} // verus!
