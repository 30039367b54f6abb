//! Parameter changes requested by the administrator take effect only after
//! a second party approves them and before they expire.

use escrow::errors::EscrowError;
use escrow::fees::MAX_FEE_BPS;
use escrow::governance::{
    GovernanceProposalKind, GovernanceProposalState, GovernedParameters, GOVERNANCE_PROPOSAL_TTL_LEDGERS,
};
use escrow::platform::Platform;
use escrow::types::AccountId;

const ADMIN: AccountId = 1;
const APPROVER: AccountId = 2;
const SECOND_APPROVER: AccountId = 3;

/// A platform together with the ledger sequence that the chain is at.
struct Chain {
    platform: Platform,
    ledger: u32,
}

impl Chain {
    fn advance(&mut self, delta: u32) {
        self.ledger += delta;
    }

    fn request(&mut self, kind: GovernanceProposalKind) -> Result<u64, EscrowError> {
        self.platform.request_governance_proposal(ADMIN, kind, self.ledger)
    }

    fn approve(&mut self, id: u64, who: AccountId) -> Result<(), EscrowError> {
        self.platform.approve_governance_proposal(id, who, self.ledger)
    }

    fn reject(&mut self, id: u64, who: AccountId) -> Result<(), EscrowError> {
        self.platform.reject_governance_proposal(id, who, self.ledger)
    }

    fn apply(&mut self, id: u64) -> Result<(), EscrowError> {
        self.platform.apply_governance_proposal(ADMIN, id, self.ledger)
    }
}

fn new_client() -> Chain {
    Chain { platform: Platform::new(ADMIN), ledger: 10 }
}

fn fee_bps_kind() -> GovernanceProposalKind {
    GovernanceProposalKind::SetProtocolFeeBps(500)
}

#[test]
fn full_happy_path_request_approve_apply() {
    let mut c = new_client();
    let proposal_id = c.request(GovernanceProposalKind::SetProtocolFeeBps(300)).unwrap();
    assert!(proposal_id > 0);
    assert_eq!(c.platform.protocol_fee_bps(), 0u32);
    assert!(c.approve(proposal_id, APPROVER).is_ok());
    assert!(c.apply(proposal_id).is_ok());
    assert_eq!(c.platform.protocol_fee_bps(), 300u32);
    let stored = c.platform.get_governance_proposal(proposal_id).expect("proposal should still be readable after apply");
    assert_eq!(stored.state, GovernanceProposalState::Applied);
}

#[test]
fn happy_path_set_governed_params_applied() {
    let mut c = new_client();
    let new_params = GovernedParameters { protocol_fee_bps: 150, max_escrow_total_stroops: 50_000_000_000_000 };
    let id = c.request(GovernanceProposalKind::SetGovernedParams(new_params)).unwrap();
    c.approve(id, APPROVER).unwrap();
    c.apply(id).unwrap();
    assert_eq!(c.platform.protocol_fee_bps(), 150);
    assert_eq!(c.platform.max_escrow_total(), 50_000_000_000_000);
}

#[test]
fn happy_path_set_max_milestones_applied() {
    let mut c = new_client();
    let id = c.request(GovernanceProposalKind::SetMaxMilestones(5)).unwrap();
    c.approve(id, APPROVER).unwrap();
    c.apply(id).unwrap();
    assert_eq!(c.platform.max_milestones(), 5u32);
}

#[test]
fn edge_request_by_operator_succeeds() {
    let mut c = new_client();
    let proposal_id = c.request(fee_bps_kind()).unwrap();
    assert!(proposal_id > 0, "proposal ID must be positive");
    let proposal = c.platform.get_governance_proposal(proposal_id).expect("proposal must be readable after request");
    assert_eq!(proposal.state, GovernanceProposalState::Pending);
    assert_eq!(proposal.requester, ADMIN);
    assert_eq!(proposal.approver, None);
}

#[test]
fn get_next_proposal_id_advances_monotonically() {
    let mut c = new_client();
    assert_eq!(c.platform.next_governance_proposal_id(), 1u64);
    let id1 = c.request(fee_bps_kind()).unwrap();
    assert_eq!(id1, 1u64);
    assert_eq!(c.platform.next_governance_proposal_id(), 2u64);
    let id2 = c.request(fee_bps_kind()).unwrap();
    assert_eq!(id2, 2u64);
    assert_eq!(c.platform.next_governance_proposal_id(), 3u64);
}

#[test]
fn unauthorized_requester_rejected() {
    let mut c = new_client();
    let ledger = c.ledger;
    assert_eq!(
        c.platform.request_governance_proposal(APPROVER, fee_bps_kind(), ledger),
        Err(EscrowError::UnauthorizedRole)
    );
    assert_eq!(c.platform.next_governance_proposal_id(), 1u64);
}

#[test]
fn request_with_invalid_fee_bps_rejected() {
    let mut c = new_client();
    let bad_kind = GovernanceProposalKind::SetProtocolFeeBps(MAX_FEE_BPS + 1);
    assert_eq!(c.request(bad_kind), Err(EscrowError::InvalidProtocolParameters));
}

#[test]
fn request_with_invalid_max_milestones_rejected() {
    let mut c = new_client();
    assert_eq!(c.request(GovernanceProposalKind::SetMaxMilestones(0)), Err(EscrowError::LimitOutOfRange));
}

#[test]
fn edge_self_approval_rejected() {
    let mut c = new_client();
    let proposal_id = c.request(fee_bps_kind()).unwrap();
    assert_eq!(c.approve(proposal_id, ADMIN), Err(EscrowError::GovernanceSelfApproval));
    let proposal = c.platform.get_governance_proposal(proposal_id).expect("proposal still readable");
    assert_eq!(proposal.state, GovernanceProposalState::Pending);
    assert_eq!(proposal.approver, None);
}

#[test]
fn self_rejection_also_rejected() {
    let mut c = new_client();
    let proposal_id = c.request(fee_bps_kind()).unwrap();
    assert_eq!(c.reject(proposal_id, ADMIN), Err(EscrowError::GovernanceSelfApproval));
    let proposal = c.platform.get_governance_proposal(proposal_id).expect("proposal still readable");
    assert_eq!(proposal.state, GovernanceProposalState::Pending);
}

#[test]
fn edge_expired_proposal_cannot_be_approved() {
    let mut c = new_client();
    let proposal_id = c.request(fee_bps_kind()).unwrap();
    c.advance(GOVERNANCE_PROPOSAL_TTL_LEDGERS + 1);
    assert_eq!(c.approve(proposal_id, APPROVER), Err(EscrowError::GovernanceProposalExpired));
}

#[test]
fn edge_expired_proposal_cannot_be_rejected() {
    let mut c = new_client();
    let proposal_id = c.request(fee_bps_kind()).unwrap();
    c.advance(GOVERNANCE_PROPOSAL_TTL_LEDGERS + 1);
    assert_eq!(c.reject(proposal_id, APPROVER), Err(EscrowError::GovernanceProposalExpired));
}

#[test]
fn edge_approved_then_expired_cannot_be_applied() {
    let mut c = new_client();
    let proposal_id = c.request(fee_bps_kind()).unwrap();
    c.approve(proposal_id, APPROVER).unwrap();
    c.advance(GOVERNANCE_PROPOSAL_TTL_LEDGERS + 1);
    assert_eq!(c.apply(proposal_id), Err(EscrowError::GovernanceProposalExpired));
}

#[test]
fn approval_exactly_at_expiry_boundary_succeeds() {
    let mut c = new_client();
    let proposal_id = c.request(fee_bps_kind()).unwrap();
    c.advance(GOVERNANCE_PROPOSAL_TTL_LEDGERS);
    assert!(c.approve(proposal_id, APPROVER).is_ok());
}

#[test]
fn edge_rejected_proposal_cannot_be_approved_after_rejection() {
    let mut c = new_client();
    let proposal_id = c.request(fee_bps_kind()).unwrap();
    assert!(c.reject(proposal_id, APPROVER).is_ok());
    let proposal = c.platform.get_governance_proposal(proposal_id).expect("proposal readable after rejection");
    assert_eq!(proposal.state, GovernanceProposalState::Rejected);
    assert_eq!(c.approve(proposal_id, SECOND_APPROVER), Err(EscrowError::GovernanceProposalInvalidState));
}

#[test]
fn edge_rejected_proposal_cannot_be_applied() {
    let mut c = new_client();
    let proposal_id = c.request(fee_bps_kind()).unwrap();
    c.reject(proposal_id, APPROVER).unwrap();
    assert_eq!(c.apply(proposal_id), Err(EscrowError::GovernanceProposalInvalidState));
    assert_eq!(c.platform.protocol_fee_bps(), 0u32);
}

#[test]
fn rejecting_an_already_rejected_proposal_fails() {
    let mut c = new_client();
    let proposal_id = c.request(fee_bps_kind()).unwrap();
    c.reject(proposal_id, APPROVER).unwrap();
    assert_eq!(c.reject(proposal_id, APPROVER), Err(EscrowError::GovernanceProposalInvalidState));
}

#[test]
fn edge_apply_twice_rejected() {
    let mut c = new_client();
    let proposal_id = c.request(fee_bps_kind()).unwrap();
    c.approve(proposal_id, APPROVER).unwrap();
    assert!(c.apply(proposal_id).is_ok());
    assert_eq!(c.apply(proposal_id), Err(EscrowError::GovernanceProposalInvalidState));
}

#[test]
fn apply_pending_proposal_fails() {
    let mut c = new_client();
    let proposal_id = c.request(fee_bps_kind()).unwrap();
    assert_eq!(c.apply(proposal_id), Err(EscrowError::GovernanceProposalInvalidState));
    assert_eq!(c.platform.protocol_fee_bps(), 0u32);
}

#[test]
fn approve_nonexistent_proposal_fails() {
    let mut c = new_client();
    assert_eq!(c.approve(999, APPROVER), Err(EscrowError::GovernanceProposalNotFound));
}

#[test]
fn apply_nonexistent_proposal_fails() {
    let mut c = new_client();
    assert_eq!(c.apply(999), Err(EscrowError::GovernanceProposalNotFound));
}

#[test]
fn approver_identity_recorded_on_approval() {
    let mut c = new_client();
    let proposal_id = c.request(fee_bps_kind()).unwrap();
    c.approve(proposal_id, APPROVER).unwrap();
    let proposal = c.platform.get_governance_proposal(proposal_id).expect("proposal readable");
    assert_eq!(proposal.state, GovernanceProposalState::Approved);
    assert_eq!(proposal.approver, Some(APPROVER));
}

#[test]
fn approver_identity_recorded_on_rejection() {
    let mut c = new_client();
    let proposal_id = c.request(fee_bps_kind()).unwrap();
    c.reject(proposal_id, SECOND_APPROVER).unwrap();
    let proposal = c.platform.get_governance_proposal(proposal_id).expect("proposal readable");
    assert_eq!(proposal.state, GovernanceProposalState::Rejected);
    assert_eq!(proposal.approver, Some(SECOND_APPROVER));
}

#[test]
fn multiple_proposals_independent() {
    let mut c = new_client();
    let id1 = c.request(GovernanceProposalKind::SetProtocolFeeBps(100)).unwrap();
    let id2 = c.request(GovernanceProposalKind::SetMaxMilestones(8)).unwrap();
    assert_ne!(id1, id2, "IDs must be distinct");
    c.approve(id2, SECOND_APPROVER).unwrap();
    c.apply(id2).unwrap();
    assert_eq!(c.platform.max_milestones(), 8u32);
    assert_eq!(c.platform.protocol_fee_bps(), 0u32, "fee unchanged so far");
    c.approve(id1, APPROVER).unwrap();
    c.apply(id1).unwrap();
    assert_eq!(c.platform.protocol_fee_bps(), 100u32);
    assert_eq!(c.platform.get_governance_proposal(id1).unwrap().state, GovernanceProposalState::Applied);
    assert_eq!(c.platform.get_governance_proposal(id2).unwrap().state, GovernanceProposalState::Applied);
}

#[test]
fn applied_milestone_limit_governs_new_contracts() {
    let mut c = new_client();
    let id = c.request(GovernanceProposalKind::SetMaxMilestones(2)).unwrap();
    c.approve(id, APPROVER).unwrap();
    c.apply(id).unwrap();
    assert_eq!(
        c.platform.create_contract(10, 20, None, &[1, 2, 3], escrow::types::ReleaseAuthorization::ClientOnly),
        Err(EscrowError::TooManyMilestones)
    );
    assert!(c.platform.create_contract(10, 20, None, &[1, 2], escrow::types::ReleaseAuthorization::ClientOnly).is_ok());
}
