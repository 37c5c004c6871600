use vstd::prelude::*;

use crate::errors::MarketplaceError;
use crate::types::AccountId;

verus! {

/// How long a proposal stays acceptable: seven days, in seconds.
pub const PROPOSAL_TTL: u64 = 604_800;

/// How long a treasury proposal must wait before it can be accepted: one
/// hour, in seconds.
pub const TREASURY_TIMELOCK: u64 = 3_600;

/// What a two-step transfer hands over.
#[derive(Clone, Copy, Debug, PartialEq, Eq, Structural)]
pub enum ProposalKind {
    /// The contract admin.
    Admin,
    /// The treasury that collects protocol fees.
    Treasury,
    /// The holder of one role.
    Role,
}

/// A transfer proposed and not yet accepted or cancelled.
#[derive(Clone, Copy, Debug, PartialEq, Eq, Structural)]
pub struct PendingProposal {
    /// Who may accept.
    pub candidate: AccountId,
    /// Ledger timestamp of the proposal.
    pub proposed_at: u64,
    /// Last ledger timestamp at which the proposal can be accepted.
    pub expires_at: u64,
}

/// The error for "nothing is pending" of each kind of transfer.
pub open spec fn no_pending_error(kind: ProposalKind) -> MarketplaceError {
    match kind {
        ProposalKind::Admin => MarketplaceError::NoAdminProposalPending,
        ProposalKind::Treasury => MarketplaceError::NoTreasuryProposalPending,
        ProposalKind::Role => MarketplaceError::NoRoleProposalPending,
    }
}

/// The error for "the proposal has expired" of each kind of transfer.
pub open spec fn expired_error(kind: ProposalKind) -> MarketplaceError {
    match kind {
        ProposalKind::Admin => MarketplaceError::AdminProposalExpired,
        ProposalKind::Treasury => MarketplaceError::TreasuryProposalExpired,
        ProposalKind::Role => MarketplaceError::RoleProposalExpired,
    }
}

/// A treasury proposal is still inside its timelock at `now`.
pub open spec fn timelocked(kind: ProposalKind, p: PendingProposal, now: u64) -> bool {
    kind == ProposalKind::Treasury && now < p.proposed_at + TREASURY_TIMELOCK
}

/// The outcome of proposing `candidate`.
///
/// `authority` is who may propose (the admin, or the current role holder);
/// `current` is who holds what is being handed over now; `contract` is the
/// marketplace contract's own address.
pub open spec fn propose_verdict(
    kind: ProposalKind,
    caller: AccountId,
    authority: Option<AccountId>,
    current: Option<AccountId>,
    candidate: AccountId,
    contract: AccountId,
    now: u64,
) -> Result<PendingProposal, MarketplaceError> {
    if authority != Some(caller) {
        Err(MarketplaceError::Unauthorized)
    } else if kind == ProposalKind::Treasury && current == Some(candidate) {
        Err(MarketplaceError::TreasuryProposalSelf)
    } else if kind == ProposalKind::Role && current == Some(candidate) {
        Err(MarketplaceError::RoleTransferToSelf)
    } else if kind == ProposalKind::Role && candidate == contract {
        Err(MarketplaceError::RoleTransferToContract)
    } else {
        Ok(
            PendingProposal {
                candidate,
                proposed_at: now,
                expires_at: (now + PROPOSAL_TTL) as u64,
            },
        )
    }
}

/// The outcome of `caller` accepting the pending proposal at `now`: the new
/// holder.
pub open spec fn accept_verdict(
    kind: ProposalKind,
    pending: Option<PendingProposal>,
    caller: AccountId,
    now: u64,
) -> Result<AccountId, MarketplaceError> {
    match pending {
        None => Err(no_pending_error(kind)),
        Some(p) => {
            if p.candidate != caller {
                Err(MarketplaceError::Unauthorized)
            } else if now > p.expires_at {
                Err(expired_error(kind))
            } else if timelocked(kind, p, now) {
                Err(MarketplaceError::InvalidListingDuration)
            } else {
                Ok(p.candidate)
            }
        },
    }
}

/// The outcome of `caller` withdrawing the pending proposal.
pub open spec fn cancel_verdict(
    kind: ProposalKind,
    pending: Option<PendingProposal>,
    caller: AccountId,
    authority: Option<AccountId>,
) -> Result<(), MarketplaceError> {
    if authority != Some(caller) {
        Err(MarketplaceError::Unauthorized)
    } else if pending is None {
        Err(no_pending_error(kind))
    } else {
        Ok(())
    }
}

fn no_pending(kind: ProposalKind) -> (e: MarketplaceError)
    ensures
        e == no_pending_error(kind),
{
    match kind {
        ProposalKind::Admin => MarketplaceError::NoAdminProposalPending,
        ProposalKind::Treasury => MarketplaceError::NoTreasuryProposalPending,
        ProposalKind::Role => MarketplaceError::NoRoleProposalPending,
    }
}

fn expired(kind: ProposalKind) -> (e: MarketplaceError)
    ensures
        e == expired_error(kind),
{
    match kind {
        ProposalKind::Admin => MarketplaceError::AdminProposalExpired,
        ProposalKind::Treasury => MarketplaceError::TreasuryProposalExpired,
        ProposalKind::Role => MarketplaceError::RoleProposalExpired,
    }
}

/// Starts a two-step transfer of `kind` to `candidate`, replacing any
/// proposal still pending. The proposal can be accepted until
/// [`PROPOSAL_TTL`] seconds after `now`.
pub fn propose(
    kind: ProposalKind,
    caller: AccountId,
    authority: Option<AccountId>,
    current: Option<AccountId>,
    candidate: AccountId,
    contract: AccountId,
    now: u64,
) -> (r: Result<PendingProposal, MarketplaceError>)
    requires
        now + PROPOSAL_TTL <= u64::MAX,
    ensures
        r == propose_verdict(kind, caller, authority, current, candidate, contract, now),
{
    if authority != Some(caller) {
        return Err(MarketplaceError::Unauthorized);
    }
    if kind == ProposalKind::Treasury && current == Some(candidate) {
        return Err(MarketplaceError::TreasuryProposalSelf);
    }
    if kind == ProposalKind::Role && current == Some(candidate) {
        return Err(MarketplaceError::RoleTransferToSelf);
    }
    if kind == ProposalKind::Role && candidate == contract {
        return Err(MarketplaceError::RoleTransferToContract);
    }
    Ok(PendingProposal { candidate, proposed_at: now, expires_at: now + PROPOSAL_TTL })
}

/// Completes a two-step transfer: the candidate named by the pending proposal
/// accepts at `now`. Returns the new holder; the caller then clears the
/// proposal. A proposal is still acceptable at exactly `expires_at`; a
/// treasury proposal only from [`TREASURY_TIMELOCK`] seconds after it was made.
pub fn accept(kind: ProposalKind, pending: Option<PendingProposal>, caller: AccountId, now: u64) -> (r:
    Result<AccountId, MarketplaceError>)
    ensures
        r == accept_verdict(kind, pending, caller, now),
{
    match pending {
        None => Err(no_pending(kind)),
        Some(p) => {
            if p.candidate != caller {
                return Err(MarketplaceError::Unauthorized);
            }
            if now > p.expires_at {
                return Err(expired(kind));
            }
            if kind == ProposalKind::Treasury && (now as u128) < (p.proposed_at as u128)
                + (TREASURY_TIMELOCK as u128) {
                return Err(MarketplaceError::InvalidListingDuration);
            }
            Ok(p.candidate)
        },
    }
}

/// Withdraws the pending proposal; only the party that may propose may
/// cancel.
pub fn cancel(
    kind: ProposalKind,
    pending: Option<PendingProposal>,
    caller: AccountId,
    authority: Option<AccountId>,
) -> (r: Result<(), MarketplaceError>)
    ensures
        r == cancel_verdict(kind, pending, caller, authority),
{
    if authority != Some(caller) {
        return Err(MarketplaceError::Unauthorized);
    }
    if pending.is_none() {
        return Err(no_pending(kind));
    }
    Ok(())
}

/// A proposal that was accepted by its candidate inside its window hands the
/// role, admin seat or treasury to exactly that candidate.
pub proof fn lemma_propose_then_accept(
    kind: ProposalKind,
    caller: AccountId,
    authority: Option<AccountId>,
    current: Option<AccountId>,
    candidate: AccountId,
    contract: AccountId,
    now: u64,
    later: u64,
)
    requires
        now + PROPOSAL_TTL <= u64::MAX,
        propose_verdict(kind, caller, authority, current, candidate, contract, now) is Ok,
        now + (if kind == ProposalKind::Treasury {
            TREASURY_TIMELOCK
        } else {
            0
        }) <= later <= now + PROPOSAL_TTL,
    ensures
        accept_verdict(
            kind,
            Some(propose_verdict(kind, caller, authority, current, candidate, contract, now)->Ok_0),
            candidate,
            later,
        ) == Ok::<AccountId, MarketplaceError>(candidate),
{
}

/// Past its deadline a proposal can never be accepted, by anyone.
pub proof fn lemma_expired_proposal_refused(
    kind: ProposalKind,
    p: PendingProposal,
    caller: AccountId,
    now: u64,
)
    requires
        now > p.expires_at,
    ensures
        accept_verdict(kind, Some(p), caller, now) is Err,
{
}

/// Only the named candidate can ever complete a transfer.
pub proof fn lemma_only_candidate_accepts(
    kind: ProposalKind,
    pending: Option<PendingProposal>,
    caller: AccountId,
    now: u64,
)
    requires
        accept_verdict(kind, pending, caller, now) is Ok,
    ensures
        pending matches Some(p) && p.candidate == caller,
        accept_verdict(kind, pending, caller, now) == Ok::<AccountId, MarketplaceError>(caller),
{
}

} // verus!
