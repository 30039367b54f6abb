//! Two governance workflows: handing the administrator role to a new
//! account in two steps with a waiting period and an expiry, and changes of
//! protocol parameters that one party requests and a second party approves
//! before they take effect.

use vstd::prelude::*;
use crate::errors::EscrowError;
use crate::escrow::{MIN_MAX_MILESTONES, MAX_MAX_MILESTONES};
use crate::fees::MAX_FEE_BPS;
use crate::types::AccountId;

verus! {

/// Ledgers that must pass after a proposal before the proposed account may
/// accept the administrator role.
pub const ADMIN_ROTATION_MIN_DELAY_LEDGERS: u32 = 17_280;

/// Ledgers after a proposal during which it may still be accepted.
pub const ADMIN_ROTATION_PROPOSAL_TTL_LEDGERS: u32 = 155_520;

/// Ledgers after a governance request during which it may be decided and
/// applied.
pub const GOVERNANCE_PROPOSAL_TTL_LEDGERS: u32 = 120_960;

/// A proposed new administrator and the ledger of the proposal.
#[derive(Debug, Clone, Copy, PartialEq, Eq, Structural)]
pub struct PendingAdmin {
    pub proposed: AccountId,
    pub proposed_at: u32,
}

/// Why `caller` could not accept the administrator role at `ledger`, if
/// they could not: there must be a proposal naming them, at least
/// `ADMIN_ROTATION_MIN_DELAY_LEDGERS` old and at most
/// `ADMIN_ROTATION_PROPOSAL_TTL_LEDGERS` old.
pub open spec fn accept_admin_outcome(pending: Option<PendingAdmin>, caller: AccountId, ledger: u32) -> Result<(), EscrowError> {
    match pending {
        None => Err(EscrowError::InvalidState),
        Some(p) => if caller != p.proposed {
            Err(EscrowError::UnauthorizedRole)
        } else if ledger < p.proposed_at + ADMIN_ROTATION_MIN_DELAY_LEDGERS {
            Err(EscrowError::TimelockNotElapsed)
        } else if ledger > p.proposed_at + ADMIN_ROTATION_PROPOSAL_TTL_LEDGERS {
            Err(EscrowError::AdminProposalExpired)
        } else {
            Ok(())
        },
    }
}

/// Computes `accept_admin_outcome`.
pub fn check_admin_acceptance(pending: Option<PendingAdmin>, caller: AccountId, ledger: u32) -> (r: Result<(), EscrowError>)
    ensures
        r == accept_admin_outcome(pending, caller, ledger),
{
    match pending {
        None => Err(EscrowError::InvalidState),
        Some(p) => {
            if caller != p.proposed {
                Err(EscrowError::UnauthorizedRole)
            } else if (ledger as u64) < p.proposed_at as u64 + ADMIN_ROTATION_MIN_DELAY_LEDGERS as u64 {
                Err(EscrowError::TimelockNotElapsed)
            } else if ledger as u64 > p.proposed_at as u64 + ADMIN_ROTATION_PROPOSAL_TTL_LEDGERS as u64 {
                Err(EscrowError::AdminProposalExpired)
            } else {
                Ok(())
            }
        },
    }
}

/// Why a stale proposal could not be cleared at `ledger`, if it could not:
/// only a proposal past its acceptance window may be cleared this way.
pub open spec fn recover_admin_outcome(pending: Option<PendingAdmin>, ledger: u32) -> Result<(), EscrowError> {
    match pending {
        None => Err(EscrowError::InvalidState),
        Some(p) => if ledger < p.proposed_at + ADMIN_ROTATION_MIN_DELAY_LEDGERS {
            Err(EscrowError::TimelockNotElapsed)
        } else if ledger <= p.proposed_at + ADMIN_ROTATION_PROPOSAL_TTL_LEDGERS {
            Err(EscrowError::InvalidState)
        } else {
            Ok(())
        },
    }
}

/// Computes `recover_admin_outcome`.
pub fn check_admin_recovery(pending: Option<PendingAdmin>, ledger: u32) -> (r: Result<(), EscrowError>)
    ensures
        r == recover_admin_outcome(pending, ledger),
{
    match pending {
        None => Err(EscrowError::InvalidState),
        Some(p) => {
            if (ledger as u64) < p.proposed_at as u64 + ADMIN_ROTATION_MIN_DELAY_LEDGERS as u64 {
                Err(EscrowError::TimelockNotElapsed)
            } else if ledger as u64 <= p.proposed_at as u64 + ADMIN_ROTATION_PROPOSAL_TTL_LEDGERS as u64 {
                Err(EscrowError::InvalidState)
            } else {
                Ok(())
            }
        },
    }
}

/// The fee rate and the ceiling on escrow totals, set together.
#[derive(Debug, Clone, Copy, PartialEq, Eq, Structural)]
pub struct GovernedParameters {
    pub protocol_fee_bps: u32,
    pub max_escrow_total_stroops: i128,
}

/// A change of protocol parameters that a governance proposal carries.
#[derive(Debug, Clone, Copy, PartialEq, Eq, Structural)]
pub enum GovernanceProposalKind {
    SetProtocolFeeBps(u32),
    SetGovernedParams(GovernedParameters),
    SetMaxMilestones(u32),
}

/// Where a governance proposal stands.
#[derive(Debug, Clone, Copy, PartialEq, Eq, Structural)]
pub enum GovernanceProposalState {
    Pending,
    Approved,
    Rejected,
    Applied,
}

/// A governance proposal: what it changes, who requested it, who decided
/// on it, where it stands, and the last ledger at which it may be acted on.
#[derive(Debug, Clone, Copy, PartialEq, Eq, Structural)]
pub struct GovernanceProposal {
    pub id: u64,
    pub kind: GovernanceProposalKind,
    pub requester: AccountId,
    pub approver: Option<AccountId>,
    pub state: GovernanceProposalState,
    pub created_at_ledger: u32,
    pub expires_at_ledger: u64,
}

/// Why a change could not be proposed, if it could not: the fee rate at
/// most `MAX_FEE_BPS`, the ceiling on totals positive, and the milestone
/// limit between `MIN_MAX_MILESTONES` and `MAX_MAX_MILESTONES`.
pub open spec fn kind_outcome(kind: GovernanceProposalKind) -> Result<(), EscrowError> {
    match kind {
        GovernanceProposalKind::SetProtocolFeeBps(b) => if b > MAX_FEE_BPS {
            Err(EscrowError::InvalidProtocolParameters)
        } else {
            Ok(())
        },
        GovernanceProposalKind::SetGovernedParams(g) => if g.protocol_fee_bps > MAX_FEE_BPS || g.max_escrow_total_stroops <= 0 {
            Err(EscrowError::InvalidProtocolParameters)
        } else {
            Ok(())
        },
        GovernanceProposalKind::SetMaxMilestones(n) => if n < MIN_MAX_MILESTONES || n > MAX_MAX_MILESTONES {
            Err(EscrowError::LimitOutOfRange)
        } else {
            Ok(())
        },
    }
}

/// Computes `kind_outcome`.
pub fn validate_proposal_kind(kind: GovernanceProposalKind) -> (r: Result<(), EscrowError>)
    ensures
        r == kind_outcome(kind),
{
    match kind {
        GovernanceProposalKind::SetProtocolFeeBps(b) => {
            if b > MAX_FEE_BPS {
                return Err(EscrowError::InvalidProtocolParameters);
            }
        },
        GovernanceProposalKind::SetGovernedParams(g) => {
            if g.protocol_fee_bps > MAX_FEE_BPS || g.max_escrow_total_stroops <= 0 {
                return Err(EscrowError::InvalidProtocolParameters);
            }
        },
        GovernanceProposalKind::SetMaxMilestones(n) => {
            if n < MIN_MAX_MILESTONES || n > MAX_MAX_MILESTONES {
                return Err(EscrowError::LimitOutOfRange);
            }
        },
    }
    Ok(())
}

/// Why `who` could not approve or reject proposal `p` at `ledger`, if they
/// could not: the requester never decides their own proposal, only a
/// pending proposal is decided, and only until it expires.
pub open spec fn decide_outcome(p: GovernanceProposal, who: AccountId, ledger: u32) -> Result<(), EscrowError> {
    if who == p.requester {
        Err(EscrowError::GovernanceSelfApproval)
    } else if p.state != GovernanceProposalState::Pending {
        Err(EscrowError::GovernanceProposalInvalidState)
    } else if ledger > p.expires_at_ledger {
        Err(EscrowError::GovernanceProposalExpired)
    } else {
        Ok(())
    }
}

/// Decides proposal `p`: approved when `approve` holds, rejected otherwise,
/// with `who` recorded as the deciding party.
pub fn decide_proposal(p: GovernanceProposal, who: AccountId, ledger: u32, approve: bool) -> (r: Result<GovernanceProposal, EscrowError>)
    ensures
        decide_outcome(p, who, ledger) is Err ==> r == Err::<GovernanceProposal, EscrowError>(decide_outcome(p, who, ledger)->Err_0),
        decide_outcome(p, who, ledger) is Ok ==> r == Ok::<GovernanceProposal, EscrowError>(GovernanceProposal {
            approver: Some(who),
            state: if approve { GovernanceProposalState::Approved } else { GovernanceProposalState::Rejected },
            ..p
        }),
{
    if who == p.requester {
        return Err(EscrowError::GovernanceSelfApproval);
    }
    match p.state {
        GovernanceProposalState::Pending => {},
        _ => return Err(EscrowError::GovernanceProposalInvalidState),
    }
    if ledger as u64 > p.expires_at_ledger {
        return Err(EscrowError::GovernanceProposalExpired);
    }
    let state = if approve { GovernanceProposalState::Approved } else { GovernanceProposalState::Rejected };
    Ok(GovernanceProposal { approver: Some(who), state, ..p })
}

/// Why proposal `p` could not be applied at `ledger`, if it could not:
/// only an approved proposal is applied, and only until it expires.
pub open spec fn apply_outcome(p: GovernanceProposal, ledger: u32) -> Result<(), EscrowError> {
    if p.state != GovernanceProposalState::Approved {
        Err(EscrowError::GovernanceProposalInvalidState)
    } else if ledger > p.expires_at_ledger {
        Err(EscrowError::GovernanceProposalExpired)
    } else {
        Ok(())
    }
}

/// Computes `apply_outcome`.
pub fn check_apply(p: GovernanceProposal, ledger: u32) -> (r: Result<(), EscrowError>)
    ensures
        r == apply_outcome(p, ledger),
{
    match p.state {
        GovernanceProposalState::Approved => {},
        _ => return Err(EscrowError::GovernanceProposalInvalidState),
    }
    if ledger as u64 > p.expires_at_ledger {
        return Err(EscrowError::GovernanceProposalExpired);
    }
    Ok(())
}

} // verus!
