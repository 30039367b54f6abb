//! Every milestone operation against every role (administrator, client,
//! freelancer, arbiter, stranger) under each release rule.

use escrow::errors::EscrowError;
use escrow::platform::Platform;
use escrow::scenarios;
use escrow::token::Holder;
use escrow::types::{AccountId, ReleaseAuthorization};

const ADMIN: AccountId = 1;
const CLIENT: AccountId = 10;
const FREELANCER: AccountId = 20;
const ARBITER: AccountId = 30;
const STRANGER: AccountId = 99;

fn setup_funded_with_mode(mode: ReleaseAuthorization) -> (Platform, u32) {
    let (p, token, id) =
        scenarios::setup_funded_with_mode(ADMIN, CLIENT, FREELANCER, Some(ARBITER), vec![100_0000000, 200_0000000], mode);
    assert_eq!(token.balance(Holder::Escrow), 300_0000000);
    assert_eq!(token.balance(Holder::Account(CLIENT)), 0);
    (p, id)
}

#[test]
fn test_approve_milestone_release_matrix_client_only() {
    let (mut p, id) = setup_funded_with_mode(ReleaseAuthorization::ClientOnly);
    assert!(p.approve_milestone_release(id, CLIENT, 0).is_ok(), "Client must be allowed in ClientOnly mode");
    for who in [FREELANCER, ARBITER, ADMIN, STRANGER] {
        assert_eq!(p.approve_milestone_release(id, who, 1), Err(EscrowError::UnauthorizedRole));
    }
}

#[test]
fn test_approve_milestone_release_matrix_arbiter_only() {
    let (mut p, id) = setup_funded_with_mode(ReleaseAuthorization::ArbiterOnly);
    assert!(p.approve_milestone_release(id, ARBITER, 0).is_ok(), "Arbiter must be allowed in ArbiterOnly mode");
    for who in [CLIENT, FREELANCER, ADMIN, STRANGER] {
        assert_eq!(p.approve_milestone_release(id, who, 1), Err(EscrowError::UnauthorizedRole));
    }
}

#[test]
fn test_approve_milestone_release_matrix_client_and_arbiter() {
    let (mut p, id) = setup_funded_with_mode(ReleaseAuthorization::ClientAndArbiter);
    assert!(p.approve_milestone_release(id, CLIENT, 0).is_ok(), "Client must be allowed in ClientAndArbiter mode");
    assert!(p.approve_milestone_release(id, ARBITER, 1).is_ok(), "Arbiter must be allowed in ClientAndArbiter mode");
    for who in [FREELANCER, ADMIN, STRANGER] {
        assert_eq!(p.approve_milestone_release(id, who, 0), Err(EscrowError::UnauthorizedRole));
    }
}

#[test]
fn test_approve_milestone_release_matrix_multisig() {
    let (mut p, id) = setup_funded_with_mode(ReleaseAuthorization::MultiSig);
    assert!(p.approve_milestone_release(id, CLIENT, 0).is_ok(), "Client must be allowed in MultiSig mode");
    assert!(p.approve_milestone_release(id, FREELANCER, 0).is_ok(), "Freelancer must be allowed in MultiSig mode");
    for who in [ARBITER, ADMIN, STRANGER] {
        assert_eq!(p.approve_milestone_release(id, who, 1), Err(EscrowError::UnauthorizedRole));
    }
}

#[test]
fn test_release_milestone_matrix_client_only() {
    let (mut p, id) = setup_funded_with_mode(ReleaseAuthorization::ClientOnly);
    assert!(p.approve_milestone_release(id, CLIENT, 0).is_ok());
    for who in [FREELANCER, ARBITER, ADMIN, STRANGER] {
        assert_eq!(p.release_milestone(id, who, 0), Err(EscrowError::UnauthorizedRole));
    }
    assert!(p.release_milestone(id, CLIENT, 0).is_ok(), "Client must be allowed to release in ClientOnly mode");
}

#[test]
fn test_release_milestone_matrix_arbiter_only() {
    let (mut p, id) = setup_funded_with_mode(ReleaseAuthorization::ArbiterOnly);
    assert!(p.approve_milestone_release(id, ARBITER, 0).is_ok());
    for who in [CLIENT, FREELANCER, ADMIN, STRANGER] {
        assert_eq!(p.release_milestone(id, who, 0), Err(EscrowError::UnauthorizedRole));
    }
    assert!(p.release_milestone(id, ARBITER, 0).is_ok(), "Arbiter must be allowed to release in ArbiterOnly mode");
}

#[test]
fn test_release_milestone_matrix_client_and_arbiter() {
    let (mut p, id) = setup_funded_with_mode(ReleaseAuthorization::ClientAndArbiter);
    assert!(p.approve_milestone_release(id, CLIENT, 0).is_ok());
    for who in [FREELANCER, ADMIN, STRANGER] {
        assert_eq!(p.release_milestone(id, who, 0), Err(EscrowError::UnauthorizedRole));
    }
    assert!(p.release_milestone(id, ARBITER, 0).is_ok(), "Arbiter must be allowed to release in ClientAndArbiter mode");
    assert!(p.approve_milestone_release(id, ARBITER, 1).is_ok());
    assert!(p.release_milestone(id, CLIENT, 1).is_ok(), "Client must be allowed to release in ClientAndArbiter mode");
}

#[test]
fn test_release_milestone_matrix_multisig() {
    let (mut p, id) = setup_funded_with_mode(ReleaseAuthorization::MultiSig);
    assert!(p.approve_milestone_release(id, CLIENT, 0).is_ok());
    assert!(p.approve_milestone_release(id, FREELANCER, 0).is_ok());
    for who in [ARBITER, ADMIN, STRANGER] {
        assert_eq!(p.release_milestone(id, who, 0), Err(EscrowError::UnauthorizedRole));
    }
    assert!(p.release_milestone(id, FREELANCER, 0).is_ok(), "Freelancer must be allowed to release in MultiSig mode after approvals");
    assert!(p.approve_milestone_release(id, CLIENT, 1).is_ok());
    assert!(p.approve_milestone_release(id, FREELANCER, 1).is_ok());
    assert!(p.release_milestone(id, CLIENT, 1).is_ok(), "Client must be allowed to release in MultiSig mode after approvals");
}

#[test]
fn test_submit_work_evidence_matrix() {
    let (mut p, id) = setup_funded_with_mode(ReleaseAuthorization::ClientOnly);
    let evidence = b"https://github.com/deliverable/pull/1".to_vec();
    for who in [CLIENT, ARBITER, ADMIN, STRANGER] {
        assert_eq!(p.submit_work_evidence(id, who, 0, evidence.clone()), Err(EscrowError::UnauthorizedRole));
    }
    assert!(p.submit_work_evidence(id, FREELANCER, 0, evidence).is_ok(), "Freelancer must be allowed to submit work evidence");
}

#[test]
fn test_refund_unreleased_milestones_matrix() {
    let (mut p, id) = setup_funded_with_mode(ReleaseAuthorization::ClientOnly);
    for who in [FREELANCER, ARBITER, ADMIN, STRANGER] {
        assert_eq!(p.refund_unreleased_milestones(id, who, &[0]), Err(EscrowError::UnauthorizedRole));
    }
    assert!(p.refund_unreleased_milestones(id, CLIENT, &[0]).is_ok(), "Client must be allowed to refund unreleased milestones");
}

#[test]
fn test_read_only_milestone_queries_auth_free() {
    let (mut p, id) = setup_funded_with_mode(ReleaseAuthorization::ClientOnly);
    let evidence = b"proof-of-work".to_vec();
    assert!(p.submit_work_evidence(id, FREELANCER, 0, evidence.clone()).is_ok());
    assert!(p.approve_milestone_release(id, CLIENT, 0).is_ok());
    for _role in [ADMIN, CLIENT, FREELANCER, ARBITER, STRANGER] {
        assert_eq!(p.get_milestones(id).unwrap().len(), 2);
        assert!(p.get_milestone(id, 0).is_ok());
        assert!(p.get_milestone_approvals(id, 0).unwrap().is_some());
        assert_eq!(p.get_work_evidence(id, 0).unwrap(), Some(&evidence));
        assert!(!p.is_milestone_overdue(id, 0, 1_000));
    }
}

#[test]
fn test_milestone_actions_invalid_state_gates() {
    let mut p = Platform::new(ADMIN);
    p.bind_settlement_token(ADMIN, 900).unwrap();
    let id = p.create_contract(CLIENT, FREELANCER, None, &[100_0000000], ReleaseAuthorization::ClientOnly).unwrap();
    let evidence = b"evidence".to_vec();

    assert_eq!(p.approve_milestone_release(id, CLIENT, 0), Err(EscrowError::InvalidState));
    assert_eq!(p.release_milestone(id, CLIENT, 0), Err(EscrowError::InvalidState));
    assert_eq!(p.submit_work_evidence(id, FREELANCER, 0, evidence.clone()), Err(EscrowError::InvalidState));

    assert!(p.deposit_funds(id, CLIENT, 100_0000000).is_ok());
    assert!(p.approve_milestone_release(id, CLIENT, 0).is_ok());
    assert!(p.release_milestone(id, CLIENT, 0).is_ok());

    assert_eq!(p.approve_milestone_release(id, CLIENT, 0), Err(EscrowError::InvalidState));
    assert_eq!(p.release_milestone(id, CLIENT, 0), Err(EscrowError::InvalidState));
    assert_eq!(p.submit_work_evidence(id, FREELANCER, 0, evidence), Err(EscrowError::InvalidState));
    assert_eq!(p.refund_unreleased_milestones(id, CLIENT, &[0]), Err(EscrowError::InvalidState));
}

#[test]
fn test_milestone_actions_blocked_when_paused() {
    let (mut p, id) = setup_funded_with_mode(ReleaseAuthorization::ClientOnly);
    p.pause(ADMIN).unwrap();
    let evidence = b"evidence".to_vec();
    assert_eq!(p.approve_milestone_release(id, CLIENT, 0), Err(EscrowError::ContractPaused));
    assert_eq!(p.release_milestone(id, CLIENT, 0), Err(EscrowError::ContractPaused));
    assert_eq!(p.submit_work_evidence(id, FREELANCER, 0, evidence), Err(EscrowError::ContractPaused));
    assert_eq!(p.refund_unreleased_milestones(id, CLIENT, &[0]), Err(EscrowError::ContractPaused));
    p.unpause(ADMIN).unwrap();
    assert!(p.approve_milestone_release(id, CLIENT, 0).is_ok());
    assert!(p.release_milestone(id, CLIENT, 0).is_ok());
}
