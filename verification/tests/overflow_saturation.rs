//! Overflow and saturation across escrow arithmetic: the pure helpers, the
//! protocol fee, milestone releases and refunds, and dispute payouts.

use escrow::amounts::{
    accumulate_amounts, safe_add_amounts, safe_subtract_amounts, validate_deposit_amount,
    validate_single_amount, MAX_SINGLE_AMOUNT_STROOPS,
};
use escrow::disputes::resolution_payouts;
use escrow::errors::EscrowError;
use escrow::fees::calculate_protocol_fee;
use escrow::platform::Platform;
use escrow::types::{AccountId, Contract, ContractStatus, DisputeResolution, DisputeSplit, ReleaseAuthorization};

const ADMIN: AccountId = 1;
const CLIENT: AccountId = 10;
const FREELANCER: AccountId = 20;

fn setup_escrow() -> Platform {
    let mut platform = Platform::new(ADMIN);
    platform.bind_settlement_token(ADMIN, 900).unwrap();
    platform
}

fn single_milestone_contract(platform: &mut Platform, amount: i128) -> u32 {
    let id = platform
        .create_contract(CLIENT, FREELANCER, None, &[amount], ReleaseAuthorization::ClientOnly)
        .unwrap();
    platform.deposit_funds(id, CLIENT, amount).unwrap();
    id
}

fn disputed_contract(total_deposited: i128, funded: i128, released: i128, refunded: i128) -> Contract {
    Contract {
        client: CLIENT,
        freelancer: FREELANCER,
        arbiter: None,
        status: ContractStatus::Disputed,
        total_deposited,
        funded_amount: funded,
        released_amount: released,
        refunded_amount: refunded,
        release_authorization: ReleaseAuthorization::ClientOnly,
        reputation_issued: false,
    }
}

// 1. safe_add_amounts / safe_subtract_amounts

#[test]
fn safe_add_normal_values_succeeds() {
    assert_eq!(safe_add_amounts(100, 200), Some(300));
    assert_eq!(safe_add_amounts(0, 0), Some(0));
    assert_eq!(safe_add_amounts(i128::MAX - 1, 1), Some(i128::MAX));
}

#[test]
fn safe_add_overflow_returns_none() {
    assert_eq!(safe_add_amounts(i128::MAX, 1), None);
    assert_eq!(safe_add_amounts(i128::MAX, i128::MAX), None);
}

#[test]
fn safe_subtract_normal_values_succeeds() {
    assert_eq!(safe_subtract_amounts(300, 100), Some(200));
    assert_eq!(safe_subtract_amounts(0, 0), Some(0));
}

#[test]
fn safe_subtract_underflow_returns_none() {
    assert_eq!(safe_subtract_amounts(i128::MIN, 1), None);
}

// 2. validate_single_amount at extreme values

#[test]
fn validate_single_amount_at_max_allowed_passes() {
    assert!(validate_single_amount(MAX_SINGLE_AMOUNT_STROOPS).is_ok());
}

#[test]
fn validate_single_amount_one_above_max_rejected() {
    let result = validate_single_amount(MAX_SINGLE_AMOUNT_STROOPS + 1);
    assert_eq!(result, Err(EscrowError::InvalidMilestoneAmount));
}

#[test]
fn validate_single_amount_i128_max_rejected() {
    let result = validate_single_amount(i128::MAX);
    assert_eq!(result, Err(EscrowError::InvalidMilestoneAmount));
}

#[test]
fn validate_single_amount_zero_rejected() {
    let result = validate_single_amount(0);
    assert_eq!(result, Err(EscrowError::AmountMustBePositive));
}

#[test]
fn validate_single_amount_negative_rejected() {
    let result = validate_single_amount(-1);
    assert_eq!(result, Err(EscrowError::AmountMustBePositive));
}

#[test]
fn validate_single_amount_i128_min_rejected() {
    let result = validate_single_amount(i128::MIN);
    assert_eq!(result, Err(EscrowError::AmountMustBePositive));
}

// 3. accumulate_amounts at extreme values

#[test]
fn accumulate_amounts_empty_iterator_gives_zero() {
    let result = accumulate_amounts(&[]);
    assert_eq!(result, Ok(0));
}

#[test]
fn accumulate_amounts_single_max_allowed_passes() {
    let result = accumulate_amounts(&[MAX_SINGLE_AMOUNT_STROOPS]);
    assert_eq!(result, Ok(MAX_SINGLE_AMOUNT_STROOPS));
}

#[test]
fn accumulate_amounts_two_valid_amounts_passes() {
    let result = accumulate_amounts(&[1_0000000_i128, 2_0000000_i128]);
    assert_eq!(result, Ok(3_0000000_i128));
}

#[test]
fn accumulate_amounts_sum_near_i128_max_overflow_rejected() {
    let result = accumulate_amounts(&[i128::MAX]);
    assert_eq!(result, Err(EscrowError::InvalidMilestoneAmount));
}

#[test]
fn accumulate_amounts_zero_amount_rejected() {
    let result = accumulate_amounts(&[100_i128, 0_i128]);
    assert_eq!(result, Err(EscrowError::AmountMustBePositive));
}

// 4. validate_deposit_amount at extreme values

#[test]
fn validate_deposit_exact_fill_passes() {
    assert!(validate_deposit_amount(500, 500, 1_000).is_ok());
}

#[test]
fn validate_deposit_one_over_rejects() {
    let result = validate_deposit_amount(501, 500, 1_000);
    assert_eq!(result, Err(EscrowError::InvalidMilestoneAmount));
}

#[test]
fn validate_deposit_i128_max_current_overflow_rejects() {
    let result = validate_deposit_amount(1, i128::MAX, i128::MAX);
    assert_eq!(result, Err(EscrowError::PotentialOverflow));
}

#[test]
fn validate_deposit_amount_zero_rejected() {
    let result = validate_deposit_amount(0, 0, 1_000);
    assert_eq!(result, Err(EscrowError::AmountMustBePositive));
}

#[test]
fn validate_deposit_amount_negative_rejected() {
    let result = validate_deposit_amount(-1, 0, 1_000);
    assert_eq!(result, Err(EscrowError::AmountMustBePositive));
}

// 5. calculate_protocol_fee

#[test]
fn calculate_fee_zero_bps_short_circuits_to_zero() {
    assert_eq!(calculate_protocol_fee(i128::MAX, 0), Ok(0));
}

#[test]
fn calculate_fee_normal_values_correct() {
    assert_eq!(calculate_protocol_fee(1_000, 1_000), Ok(100));
    assert_eq!(calculate_protocol_fee(9, 1_000), Ok(0));
    assert_eq!(calculate_protocol_fee(10_000, 10_000), Ok(10_000));
}

#[test]
fn calculate_fee_i128_max_amount_nonzero_bps_reports_overflow() {
    assert_eq!(
        calculate_protocol_fee(i128::MAX, 1_000),
        Err(EscrowError::PotentialOverflow)
    );
}

#[test]
fn calculate_fee_largest_safe_amount_does_not_overflow() {
    let safe = i128::MAX / 10_000;
    let fee = calculate_protocol_fee(safe, 1).unwrap();
    assert!(fee >= 0);
}

#[test]
fn calculate_fee_rounds_toward_zero_for_negative_amounts() {
    assert_eq!(calculate_protocol_fee(-9, 1_000), Ok(0));
    assert_eq!(calculate_protocol_fee(-15_000, 1_000), Ok(-1_500));
    assert_eq!(calculate_protocol_fee(-19, 5_000), Ok(-9));
}

// 6. release_milestone: released_amount accumulates without overflow

#[test]
fn release_milestone_accumulates_released_amount_correctly() {
    let mut escrow = setup_escrow();
    let id = escrow
        .create_contract(CLIENT, FREELANCER, None, &[100, 200, 300], ReleaseAuthorization::ClientOnly)
        .unwrap();
    escrow.deposit_funds(id, CLIENT, 600).unwrap();

    escrow.approve_milestone_release(id, CLIENT, 0).unwrap();
    escrow.release_milestone(id, CLIENT, 0).unwrap();
    assert_eq!(escrow.get_contract(id).unwrap().released_amount, 100);

    escrow.approve_milestone_release(id, CLIENT, 1).unwrap();
    escrow.release_milestone(id, CLIENT, 1).unwrap();
    assert_eq!(escrow.get_contract(id).unwrap().released_amount, 300);

    escrow.approve_milestone_release(id, CLIENT, 2).unwrap();
    escrow.release_milestone(id, CLIENT, 2).unwrap();
    assert_eq!(escrow.get_contract(id).unwrap().released_amount, 600);
}

#[test]
fn release_with_fee_pays_net_and_keeps_fee() {
    let mut escrow = setup_escrow();
    escrow.set_protocol_fee_bps(ADMIN, 1_000).unwrap();
    let id = single_milestone_contract(&mut escrow, 1_000);

    escrow.approve_milestone_release(id, CLIENT, 0).unwrap();
    let payout = escrow.release_milestone(id, CLIENT, 0).unwrap();

    // fee = 1_000 * 1_000 / 10_000 = 100, freelancer receives the rest
    assert_eq!(escrow.accumulated_protocol_fees(), 100);
    assert_eq!(payout, 900);
    let c = escrow.get_contract(id).unwrap();
    assert_eq!(c.status, ContractStatus::Completed);
    assert_eq!(c.released_amount, 1_000);
}

#[test]
fn two_releases_with_fee_accumulate_without_overflow() {
    let mut escrow = setup_escrow();
    escrow.set_protocol_fee_bps(ADMIN, 500).unwrap();
    let id = escrow
        .create_contract(CLIENT, FREELANCER, None, &[2_000, 4_000], ReleaseAuthorization::ClientOnly)
        .unwrap();
    escrow.deposit_funds(id, CLIENT, 6_000).unwrap();

    escrow.approve_milestone_release(id, CLIENT, 0).unwrap();
    escrow.release_milestone(id, CLIENT, 0).unwrap();
    assert_eq!(escrow.accumulated_protocol_fees(), 100);

    escrow.approve_milestone_release(id, CLIENT, 1).unwrap();
    escrow.release_milestone(id, CLIENT, 1).unwrap();
    assert_eq!(escrow.accumulated_protocol_fees(), 300);
}

// 7. refund_unreleased_milestones

#[test]
fn refund_single_milestone_updates_refunded_amount_correctly() {
    let mut escrow = setup_escrow();
    let id = escrow
        .create_contract(CLIENT, FREELANCER, None, &[500, 300], ReleaseAuthorization::ClientOnly)
        .unwrap();
    escrow.deposit_funds(id, CLIENT, 800).unwrap();

    escrow.refund_unreleased_milestones(id, CLIENT, &[0]).unwrap();

    let contract = escrow.get_contract(id).unwrap();
    assert_eq!(contract.refunded_amount, 500);
}

#[test]
fn refund_two_milestones_accumulates_correctly() {
    let mut escrow = setup_escrow();
    let id = escrow
        .create_contract(CLIENT, FREELANCER, None, &[200, 400, 600], ReleaseAuthorization::ClientOnly)
        .unwrap();
    escrow.deposit_funds(id, CLIENT, 1_200).unwrap();

    escrow.refund_unreleased_milestones(id, CLIENT, &[0, 1]).unwrap();

    let contract = escrow.get_contract(id).unwrap();
    assert_eq!(contract.refunded_amount, 600);
}

// 8. Accounting invariant

#[test]
fn accounting_invariant_holds_after_release_then_refund() {
    let mut escrow = setup_escrow();
    let id = escrow
        .create_contract(CLIENT, FREELANCER, None, &[300, 700], ReleaseAuthorization::ClientOnly)
        .unwrap();
    escrow.deposit_funds(id, CLIENT, 1_000).unwrap();

    escrow.approve_milestone_release(id, CLIENT, 0).unwrap();
    escrow.release_milestone(id, CLIENT, 0).unwrap();

    escrow.refund_unreleased_milestones(id, CLIENT, &[1]).unwrap();

    let c = escrow.get_contract(id).unwrap();
    let available = c.funded_amount - c.released_amount - c.refunded_amount;
    assert!(available >= 0);
    assert_eq!(
        c.funded_amount,
        c.released_amount + c.refunded_amount + available
    );
}

// 9. Resolution payouts

#[test]
fn resolution_payouts_full_refund_large_balance() {
    let large = MAX_SINGLE_AMOUNT_STROOPS;
    let contract = disputed_contract(large, large, 0, 0);
    let result = resolution_payouts(&contract, &DisputeResolution::FullRefund);
    assert_eq!(result, Ok((large, 0)));
}

#[test]
fn resolution_payouts_full_payout_large_balance() {
    let large = MAX_SINGLE_AMOUNT_STROOPS;
    let contract = disputed_contract(large, large, 0, 0);
    let result = resolution_payouts(&contract, &DisputeResolution::FullPayout);
    assert_eq!(result, Ok((0, large)));
}

#[test]
fn resolution_payouts_negative_available_returns_error() {
    let contract = disputed_contract(1_000, 500, 600, 0);
    let result = resolution_payouts(&contract, &DisputeResolution::FullRefund);
    assert_eq!(result, Err(EscrowError::AccountingInvariantViolated));
}

#[test]
fn resolution_payouts_split_exact_sum_succeeds() {
    let contract = disputed_contract(1_000, 1_000, 0, 0);
    let split = DisputeSplit {
        client_amount: 600,
        freelancer_amount: 400,
    };
    let result = resolution_payouts(&contract, &DisputeResolution::Split(split));
    assert_eq!(result, Ok((600, 400)));
}

#[test]
fn resolution_payouts_split_overflow_sum_rejected() {
    let contract = disputed_contract(i128::MAX, i128::MAX, 0, 0);
    let split = DisputeSplit {
        client_amount: i128::MAX,
        freelancer_amount: i128::MAX,
    };
    let result = resolution_payouts(&contract, &DisputeResolution::Split(split));
    assert!(
        result == Err(EscrowError::InvalidDisputeSplit)
            || result == Err(EscrowError::PotentialOverflow),
        "expected overflow or invalid split, got {:?}",
        result
    );
}

#[test]
fn resolution_payouts_split_not_matching_balance_rejected() {
    let contract = disputed_contract(1_000, 1_000, 200, 100);
    let under = DisputeSplit { client_amount: 300, freelancer_amount: 300 };
    assert_eq!(
        resolution_payouts(&contract, &DisputeResolution::Split(under)),
        Err(EscrowError::InvalidDisputeSplit)
    );
    let negative = DisputeSplit { client_amount: -1, freelancer_amount: 701 };
    assert_eq!(
        resolution_payouts(&contract, &DisputeResolution::Split(negative)),
        Err(EscrowError::InvalidDisputeSplit)
    );
    let exact = DisputeSplit { client_amount: 350, freelancer_amount: 350 };
    assert_eq!(
        resolution_payouts(&contract, &DisputeResolution::Split(exact)),
        Ok((350, 350))
    );
}

// 10. Deposit overflow guard via the platform

#[test]
fn deposit_exceeding_contract_total_is_rejected() {
    let mut escrow = setup_escrow();
    let amount = 1_000_i128;
    let id = escrow
        .create_contract(CLIENT, FREELANCER, None, &[amount], ReleaseAuthorization::ClientOnly)
        .unwrap();
    escrow.deposit_funds(id, CLIENT, amount).unwrap();

    let result = escrow.deposit_funds(id, CLIENT, 1);
    assert_eq!(result, Err(EscrowError::InvalidState));
}

#[test]
fn deposit_zero_amount_is_rejected() {
    let mut escrow = setup_escrow();
    let id = escrow
        .create_contract(CLIENT, FREELANCER, None, &[1_000], ReleaseAuthorization::ClientOnly)
        .unwrap();
    assert_eq!(
        escrow.deposit_funds(id, CLIENT, 0),
        Err(EscrowError::AmountMustBePositive)
    );
}

#[test]
fn deposit_negative_amount_is_rejected() {
    let mut escrow = setup_escrow();
    let id = escrow
        .create_contract(CLIENT, FREELANCER, None, &[1_000], ReleaseAuthorization::ClientOnly)
        .unwrap();
    assert_eq!(
        escrow.deposit_funds(id, CLIENT, -1),
        Err(EscrowError::AmountMustBePositive)
    );
}

// 11. Milestone amount bounds at creation

#[test]
fn overflow_saturation_create_contract_rejects_zero_milestone_amount() {
    let mut escrow = setup_escrow();
    assert_eq!(
        escrow.create_contract(CLIENT, FREELANCER, None, &[0], ReleaseAuthorization::ClientOnly),
        Err(EscrowError::InvalidMilestoneAmount)
    );
}

#[test]
fn create_contract_rejects_oversized_milestone_amount() {
    let mut escrow = setup_escrow();
    assert_eq!(
        escrow.create_contract(
            CLIENT,
            FREELANCER,
            None,
            &[MAX_SINGLE_AMOUNT_STROOPS + 1],
            ReleaseAuthorization::ClientOnly
        ),
        Err(EscrowError::InvalidMilestoneAmount)
    );
}

#[test]
fn overflow_saturation_create_contract_rejects_negative_milestone_amount() {
    let mut escrow = setup_escrow();
    assert_eq!(
        escrow.create_contract(CLIENT, FREELANCER, None, &[-1], ReleaseAuthorization::ClientOnly),
        Err(EscrowError::InvalidMilestoneAmount)
    );
}
