//! Every numeric and length bound across the escrow operations: zero,
//! negative, minimum, maximum, one over the limit, and overflow.

use escrow::amounts::{MAX_SINGLE_AMOUNT_STROOPS, MAX_TOTAL_ESCROW_STROOPS, MIN_POSITIVE_AMOUNT};
use escrow::errors::EscrowError;
use escrow::escrow::MAX_MILESTONES;
use escrow::platform::Platform;
use escrow::types::{AccountId, DisputeResolution, DisputeSplit, ReleaseAuthorization};

const ADMIN: AccountId = 1;
const TREASURY: AccountId = 77;
const CLIENT: AccountId = 10;
const FREELANCER: AccountId = 20;
const ARBITER: AccountId = 30;

fn setup() -> Platform {
    Platform::new(ADMIN)
}

fn setup_with_token() -> Platform {
    let mut platform = setup();
    platform.bind_settlement_token(ADMIN, 900).unwrap();
    platform
}

fn create(platform: &mut Platform, amounts: &[i128]) -> u32 {
    platform
        .create_contract(CLIENT, FREELANCER, None, amounts, ReleaseAuthorization::ClientOnly)
        .unwrap()
}

fn setup_funded() -> (Platform, u32) {
    let mut platform = setup_with_token();
    let id = create(&mut platform, &[100_0000000, 200_0000000]);
    platform.deposit_funds(id, CLIENT, 300_0000000).unwrap();
    (platform, id)
}

fn setup_completed() -> (Platform, u32) {
    let mut platform = setup_with_token();
    let id = create(&mut platform, &[100_0000000]);
    platform.deposit_funds(id, CLIENT, 100_0000000).unwrap();
    platform.approve_milestone_release(id, CLIENT, 0).unwrap();
    platform.release_milestone(id, CLIENT, 0).unwrap();
    (platform, id)
}

fn setup_disputed() -> (Platform, u32) {
    let mut platform = setup_with_token();
    let id = platform
        .create_contract(CLIENT, FREELANCER, Some(ARBITER), &[100_0000000], ReleaseAuthorization::ClientOnly)
        .unwrap();
    platform.deposit_funds(id, CLIENT, 100_0000000).unwrap();
    platform.raise_dispute(id, CLIENT).unwrap();
    (platform, id)
}

fn try_create(amounts: &[i128]) -> Result<u32, EscrowError> {
    let mut platform = setup();
    platform.create_contract(CLIENT, FREELANCER, None, amounts, ReleaseAuthorization::ClientOnly)
}

// create_contract bounds

#[test]
fn input_bounds_validation_create_contract_rejects_zero_milestone_amount() {
    assert_eq!(try_create(&[0]), Err(EscrowError::InvalidMilestoneAmount));
}

#[test]
fn input_bounds_validation_create_contract_rejects_negative_milestone_amount() {
    assert_eq!(try_create(&[-1]), Err(EscrowError::InvalidMilestoneAmount));
}

#[test]
fn create_contract_rejects_large_negative_milestone_amount() {
    assert_eq!(
        try_create(&[-1_000_000_0000000]),
        Err(EscrowError::InvalidMilestoneAmount)
    );
}

#[test]
fn create_contract_rejects_milestone_above_max_single_amount() {
    assert_eq!(
        try_create(&[MAX_SINGLE_AMOUNT_STROOPS + 1]),
        Err(EscrowError::InvalidMilestoneAmount)
    );
}

#[test]
fn create_contract_accepts_milestone_at_exact_max_single_amount() {
    assert!(try_create(&[MAX_SINGLE_AMOUNT_STROOPS]).is_ok());
}

#[test]
fn create_contract_accepts_minimal_positive_amount() {
    assert!(try_create(&[MIN_POSITIVE_AMOUNT]).is_ok());
}

#[test]
fn create_contract_rejects_empty_milestone_list() {
    assert_eq!(try_create(&[]), Err(EscrowError::EmptyMilestones));
}

#[test]
fn create_contract_rejects_one_over_max_milestone_count() {
    let amounts = vec![1_i128; MAX_MILESTONES as usize + 1];
    assert_eq!(try_create(&amounts), Err(EscrowError::TooManyMilestones));
}

#[test]
fn create_contract_accepts_exactly_max_milestone_count() {
    let amounts = vec![1_i128; MAX_MILESTONES as usize];
    assert_eq!(amounts.len(), MAX_MILESTONES as usize);
    assert!(try_create(&amounts).is_ok());
}

#[test]
fn create_contract_rejects_total_one_over_cap() {
    assert_eq!(
        try_create(&[MAX_TOTAL_ESCROW_STROOPS + 1]),
        Err(EscrowError::InvalidMilestoneAmount)
    );
}

#[test]
fn create_contract_rejects_total_above_cap_split() {
    let half = MAX_TOTAL_ESCROW_STROOPS / 2 + 1;
    assert_eq!(try_create(&[half, half]), Err(EscrowError::TotalCapExceeded));
}

#[test]
fn create_contract_rejects_i128_max_milestone() {
    assert_eq!(try_create(&[i128::MAX]), Err(EscrowError::InvalidMilestoneAmount));
}

#[test]
fn create_contract_rejects_mixed_valid_and_zero_amounts() {
    assert_eq!(
        try_create(&[100_0000000, 0, 200_0000000]),
        Err(EscrowError::InvalidMilestoneAmount)
    );
}

#[test]
fn create_contract_same_client_and_freelancer_rejected() {
    let mut platform = setup();
    assert_eq!(
        platform.create_contract(CLIENT, CLIENT, None, &[100], ReleaseAuthorization::ClientOnly),
        Err(EscrowError::InvalidParticipant)
    );
}

#[test]
fn create_contract_requires_arbiter_for_arbiter_only_mode() {
    let mut platform = setup();
    assert_eq!(
        platform.create_contract(CLIENT, FREELANCER, None, &[100], ReleaseAuthorization::ArbiterOnly),
        Err(EscrowError::MissingArbiter)
    );
}

#[test]
fn create_contract_arbiter_same_as_client_rejected() {
    let mut platform = setup();
    assert_eq!(
        platform.create_contract(CLIENT, FREELANCER, Some(CLIENT), &[100], ReleaseAuthorization::ArbiterOnly),
        Err(EscrowError::InvalidArbiter)
    );
}

#[test]
fn create_contract_arbiter_same_as_freelancer_rejected() {
    let mut platform = setup();
    assert_eq!(
        platform.create_contract(CLIENT, FREELANCER, Some(FREELANCER), &[100], ReleaseAuthorization::ArbiterOnly),
        Err(EscrowError::InvalidArbiter)
    );
}

#[test]
fn create_contract_accepts_total_at_exact_cap() {
    assert!(try_create(&[MAX_TOTAL_ESCROW_STROOPS]).is_ok());
}

#[test]
fn create_contract_accepts_total_split_at_exact_cap() {
    let half = MAX_TOTAL_ESCROW_STROOPS / 2;
    let remainder = MAX_TOTAL_ESCROW_STROOPS - half;
    assert!(try_create(&[half, remainder]).is_ok());
}

// deposit_funds bounds

#[test]
fn deposit_funds_rejects_zero_amount() {
    let mut platform = setup_with_token();
    let id = create(&mut platform, &[100_0000000]);
    assert_eq!(
        platform.deposit_funds(id, CLIENT, 0),
        Err(EscrowError::AmountMustBePositive)
    );
}

#[test]
fn deposit_funds_rejects_negative_amount() {
    let mut platform = setup_with_token();
    let id = create(&mut platform, &[100_0000000]);
    assert_eq!(
        platform.deposit_funds(id, CLIENT, -1),
        Err(EscrowError::AmountMustBePositive)
    );
}

#[test]
fn deposit_funds_rejects_amount_above_max_single() {
    let mut platform = setup_with_token();
    let id = create(&mut platform, &[MAX_SINGLE_AMOUNT_STROOPS]);
    assert_eq!(
        platform.deposit_funds(id, CLIENT, MAX_SINGLE_AMOUNT_STROOPS + 1),
        Err(EscrowError::InvalidDepositAmount)
    );
}

#[test]
fn deposit_funds_accepts_amount_at_exact_max_single() {
    let mut platform = setup_with_token();
    let id = create(&mut platform, &[MAX_SINGLE_AMOUNT_STROOPS]);
    assert!(platform.deposit_funds(id, CLIENT, MAX_SINGLE_AMOUNT_STROOPS).is_ok());
}

#[test]
fn deposit_funds_rejects_amount_exceeding_remaining_capacity() {
    let mut platform = setup_with_token();
    let id = create(&mut platform, &[100_0000000]);
    assert_eq!(
        platform.deposit_funds(id, CLIENT, 200_0000000),
        Err(EscrowError::InvalidDepositAmount)
    );
}

#[test]
fn deposit_funds_accepts_minimal_positive_amount() {
    let mut platform = setup_with_token();
    let id = create(&mut platform, &[100_0000000]);
    assert!(platform.deposit_funds(id, CLIENT, 1).is_ok());
}

#[test]
fn deposit_funds_rejects_large_negative_amount() {
    let mut platform = setup_with_token();
    let id = create(&mut platform, &[100_0000000]);
    assert_eq!(
        platform.deposit_funds(id, CLIENT, -100_0000000),
        Err(EscrowError::AmountMustBePositive)
    );
}

// withdraw_protocol_fees bounds

#[test]
fn withdraw_protocol_fees_rejects_zero_amount() {
    let mut platform = setup();
    assert_eq!(
        platform.withdraw_protocol_fees(ADMIN, 0, TREASURY, 1),
        Err(EscrowError::AmountMustBePositive)
    );
}

#[test]
fn withdraw_protocol_fees_rejects_negative_amount() {
    let mut platform = setup();
    assert_eq!(
        platform.withdraw_protocol_fees(ADMIN, -1, TREASURY, 1),
        Err(EscrowError::AmountMustBePositive)
    );
}

#[test]
fn withdraw_protocol_fees_rejects_amount_above_max() {
    let mut platform = setup();
    assert_eq!(
        platform.withdraw_protocol_fees(ADMIN, MAX_SINGLE_AMOUNT_STROOPS + 1, TREASURY, 1),
        Err(EscrowError::InvalidWithdrawalAmount)
    );
}

#[test]
fn withdraw_protocol_fees_rejects_insufficient_accumulated() {
    let (mut platform, _id) = setup_completed();
    assert_eq!(
        platform.withdraw_protocol_fees(ADMIN, 1, TREASURY, 1),
        Err(EscrowError::InsufficientAccumulatedFees)
    );
}

#[test]
fn withdraw_protocol_fees_accepts_at_exact_max() {
    let mut platform = setup();
    assert_eq!(
        platform.withdraw_protocol_fees(ADMIN, MAX_SINGLE_AMOUNT_STROOPS, TREASURY, 1),
        Err(EscrowError::InsufficientAccumulatedFees)
    );
}

// set_governed_params bounds

#[test]
fn set_governed_params_rejects_zero_max_escrow_total() {
    let mut platform = setup();
    assert_eq!(
        platform.set_governed_params(ADMIN, 0, 0),
        Err(EscrowError::InvalidProtocolParameters)
    );
}

#[test]
fn set_governed_params_rejects_negative_max_escrow_total() {
    let mut platform = setup();
    assert_eq!(
        platform.set_governed_params(ADMIN, 0, -1),
        Err(EscrowError::InvalidProtocolParameters)
    );
}

#[test]
fn set_governed_params_rejects_large_negative_max_escrow_total() {
    let mut platform = setup();
    assert_eq!(
        platform.set_governed_params(ADMIN, 0, i128::MIN),
        Err(EscrowError::InvalidProtocolParameters)
    );
}

#[test]
fn set_governed_params_accepts_minimal_positive_max_escrow_total() {
    let mut platform = setup();
    assert!(platform.set_governed_params(ADMIN, 0, 1).is_ok());
}

#[test]
fn set_governed_params_accepts_large_positive_max_escrow_total() {
    let mut platform = setup();
    assert!(platform.set_governed_params(ADMIN, 0, i128::MAX).is_ok());
}

#[test]
fn set_governed_params_rejects_fee_bps_above_10000() {
    let mut platform = setup();
    assert_eq!(
        platform.set_governed_params(ADMIN, 10_001, 1_000_000_0000000),
        Err(EscrowError::InvalidProtocolParameters)
    );
}

#[test]
fn set_governed_params_accepts_fee_bps_at_10000() {
    let mut platform = setup();
    assert!(platform.set_governed_params(ADMIN, 10_000, 1_000_000_0000000).is_ok());
}

#[test]
fn set_governed_params_accepts_fee_bps_zero() {
    let mut platform = setup();
    assert!(platform.set_governed_params(ADMIN, 0, 1_000_000_0000000).is_ok());
}

#[test]
fn set_governed_params_rejects_unauthorized_caller() {
    let mut platform = setup();
    assert_eq!(
        platform.set_governed_params(CLIENT, 0, 1_000_000_0000000),
        Err(EscrowError::UnauthorizedRole)
    );
}

// set_protocol_fee_bps bounds

#[test]
fn set_protocol_fee_bps_rejects_above_10000() {
    let mut platform = setup();
    assert_eq!(
        platform.set_protocol_fee_bps(ADMIN, 10_001),
        Err(EscrowError::InvalidProtocolParameters)
    );
}

#[test]
fn set_protocol_fee_bps_accepts_at_10000() {
    let mut platform = setup();
    assert!(platform.set_protocol_fee_bps(ADMIN, 10_000).is_ok());
}

#[test]
fn set_protocol_fee_bps_accepts_zero() {
    let mut platform = setup();
    assert!(platform.set_protocol_fee_bps(ADMIN, 0).is_ok());
}

#[test]
fn set_protocol_fee_bps_accepts_typical_values() {
    let mut platform = setup();
    assert!(platform.set_protocol_fee_bps(ADMIN, 100).is_ok());
    assert!(platform.set_protocol_fee_bps(ADMIN, 250).is_ok());
    assert!(platform.set_protocol_fee_bps(ADMIN, 500).is_ok());
    assert_eq!(platform.protocol_fee_bps(), 500);
}

// issue_reputation bounds

#[test]
fn issue_reputation_rejects_rating_zero() {
    let (mut platform, id) = setup_completed();
    assert_eq!(
        platform.issue_reputation(id, CLIENT, 0, b"Great work!"),
        Err(EscrowError::InvalidRating)
    );
}

#[test]
fn issue_reputation_rejects_rating_six() {
    let (mut platform, id) = setup_completed();
    assert_eq!(
        platform.issue_reputation(id, CLIENT, 6, b"Great work!"),
        Err(EscrowError::InvalidRating)
    );
}

#[test]
fn issue_reputation_accepts_rating_one() {
    let (mut platform, id) = setup_completed();
    assert!(platform.issue_reputation(id, CLIENT, 1, b"OK").is_ok());
}

#[test]
fn issue_reputation_accepts_rating_five() {
    let (mut platform, id) = setup_completed();
    assert!(platform.issue_reputation(id, CLIENT, 5, b"Excellent!").is_ok());
    assert!(platform.get_contract(id).unwrap().reputation_issued);
}

#[test]
fn input_bounds_validation_issue_reputation_rejects_empty_comment() {
    let (mut platform, id) = setup_completed();
    assert_eq!(
        platform.issue_reputation(id, CLIENT, 3, b""),
        Err(EscrowError::EmptyComment)
    );
}

#[test]
fn issue_reputation_rejects_comment_over_200_bytes() {
    let (mut platform, id) = setup_completed();
    let long_comment = "A".repeat(201);
    assert_eq!(long_comment.len(), 201);
    assert_eq!(
        platform.issue_reputation(id, CLIENT, 3, long_comment.as_bytes()),
        Err(EscrowError::CommentTooLong)
    );
}

#[test]
fn issue_reputation_accepts_comment_at_exact_200_bytes() {
    let (mut platform, id) = setup_completed();
    let comment = "A".repeat(200);
    assert_eq!(comment.len(), 200);
    assert!(platform.issue_reputation(id, CLIENT, 3, comment.as_bytes()).is_ok());
}

#[test]
fn issue_reputation_rejects_self_rating() {
    let mut platform = setup();
    assert_eq!(
        platform.create_contract(CLIENT, CLIENT, None, &[100_0000000], ReleaseAuthorization::ClientOnly),
        Err(EscrowError::InvalidParticipant)
    );
}

// refund_unreleased_milestones bounds

#[test]
fn refund_rejects_empty_indices() {
    let mut platform = setup_with_token();
    let id = create(&mut platform, &[100_0000000]);
    platform.deposit_funds(id, CLIENT, 100_0000000).unwrap();
    assert_eq!(
        platform.refund_unreleased_milestones(id, CLIENT, &[]),
        Err(EscrowError::EmptyRefundRequest)
    );
}

#[test]
fn refund_rejects_duplicate_indices() {
    let (mut platform, id) = setup_funded();
    assert_eq!(
        platform.refund_unreleased_milestones(id, CLIENT, &[0, 0]),
        Err(EscrowError::DuplicateMilestoneInRefund)
    );
}

#[test]
fn refund_rejects_out_of_bounds_index() {
    let mut platform = setup_with_token();
    let id = create(&mut platform, &[100_0000000]);
    platform.deposit_funds(id, CLIENT, 100_0000000).unwrap();
    assert_eq!(
        platform.refund_unreleased_milestones(id, CLIENT, &[5]),
        Err(EscrowError::IndexOutOfBounds)
    );
}

#[test]
fn refund_accepts_valid_single_index() {
    let (mut platform, id) = setup_funded();
    assert_eq!(
        platform.refund_unreleased_milestones(id, CLIENT, &[0]),
        Ok(100_0000000)
    );
}

#[test]
fn refund_accepts_multiple_distinct_indices() {
    let mut platform = setup_with_token();
    let id = create(&mut platform, &[100_0000000, 200_0000000, 300_0000000]);
    platform.deposit_funds(id, CLIENT, 600_0000000).unwrap();
    assert_eq!(
        platform.refund_unreleased_milestones(id, CLIENT, &[0, 2]),
        Ok(400_0000000)
    );
}

// submit_work_evidence bounds

#[test]
fn submit_work_evidence_rejects_over_256_bytes() {
    let mut platform = setup_with_token();
    let id = create(&mut platform, &[100_0000000]);
    platform.deposit_funds(id, CLIENT, 100_0000000).unwrap();
    let long_evidence = vec![b'A'; 257];
    assert_eq!(long_evidence.len(), 257);
    assert_eq!(
        platform.submit_work_evidence(id, FREELANCER, 0, long_evidence),
        Err(EscrowError::EvidenceTooLong)
    );
}

#[test]
fn submit_work_evidence_accepts_at_exact_256_bytes() {
    let mut platform = setup_with_token();
    let id = create(&mut platform, &[100_0000000]);
    platform.deposit_funds(id, CLIENT, 100_0000000).unwrap();
    let evidence = vec![b'A'; 256];
    assert_eq!(evidence.len(), 256);
    assert!(platform.submit_work_evidence(id, FREELANCER, 0, evidence.clone()).is_ok());
    assert_eq!(
        platform.get_milestones(id).unwrap()[0].work_evidence,
        Some(evidence)
    );
}

#[test]
fn submit_work_evidence_rejects_empty_string_boundary() {
    let mut platform = setup_with_token();
    let id = create(&mut platform, &[100_0000000]);
    platform.deposit_funds(id, CLIENT, 100_0000000).unwrap();
    assert!(platform.submit_work_evidence(id, FREELANCER, 0, Vec::new()).is_ok());
}

// approve_milestone_release bounds

#[test]
fn approve_milestone_rejects_out_of_bounds_index() {
    let mut platform = setup_with_token();
    let id = create(&mut platform, &[100_0000000]);
    platform.deposit_funds(id, CLIENT, 100_0000000).unwrap();
    assert_eq!(
        platform.approve_milestone_release(id, CLIENT, 5),
        Err(EscrowError::IndexOutOfBounds)
    );
}

#[test]
fn approve_milestone_accepts_valid_index() {
    let (mut platform, id) = setup_funded();
    assert!(platform.approve_milestone_release(id, CLIENT, 0).is_ok());
    assert!(platform.approve_milestone_release(id, CLIENT, 1).is_ok());
}

// release_milestone bounds

#[test]
fn release_milestone_rejects_out_of_bounds_index() {
    let mut platform = setup_with_token();
    let id = create(&mut platform, &[100_0000000]);
    platform.deposit_funds(id, CLIENT, 100_0000000).unwrap();
    platform.approve_milestone_release(id, CLIENT, 0).unwrap();
    assert_eq!(
        platform.release_milestone(id, CLIENT, 10),
        Err(EscrowError::IndexOutOfBounds)
    );
}

// dispute resolution bounds

#[test]
fn resolve_dispute_split_rejects_negative_client_amount() {
    let (mut platform, id) = setup_disputed();
    let resolution = DisputeResolution::Split(DisputeSplit {
        client_amount: -1,
        freelancer_amount: 100_0000000,
    });
    assert_eq!(
        platform.resolve_dispute(id, ARBITER, resolution),
        Err(EscrowError::InvalidDisputeSplit)
    );
}

#[test]
fn resolve_dispute_split_rejects_negative_freelancer_amount() {
    let (mut platform, id) = setup_disputed();
    let resolution = DisputeResolution::Split(DisputeSplit {
        client_amount: 100_0000000,
        freelancer_amount: -1,
    });
    assert_eq!(
        platform.resolve_dispute(id, ARBITER, resolution),
        Err(EscrowError::InvalidDisputeSplit)
    );
}

#[test]
fn resolve_dispute_split_rejects_non_conserving_sum() {
    let (mut platform, id) = setup_disputed();
    let resolution = DisputeResolution::Split(DisputeSplit {
        client_amount: 40_0000000,
        freelancer_amount: 40_0000000,
    });
    assert_eq!(
        platform.resolve_dispute(id, ARBITER, resolution),
        Err(EscrowError::InvalidDisputeSplit)
    );
}

#[test]
fn create_contract_still_accepts_original_three_milestone_example() {
    let id = try_create(&[200_0000000, 400_0000000, 600_0000000]).unwrap();
    assert!(id > 0);
}
