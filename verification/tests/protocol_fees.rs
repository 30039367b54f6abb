//! Rate limits on protocol fee withdrawals: a cap on the share of the earned
//! fees one withdrawal may take, and a wait, in ledgers, between withdrawals.

use escrow::errors::EscrowError;
use escrow::fees::fee_withdrawal_allowance;
use escrow::platform::Platform;
use escrow::scenarios;
use escrow::token::Holder;
use escrow::types::{AccountId, ReleaseAuthorization};

const ADMIN: AccountId = 1;
const CLIENT: AccountId = 10;
const FREELANCER: AccountId = 20;
const DESTINATION: AccountId = 40;

/// A platform together with the ledger sequence that the chain is at.
struct Chain {
    platform: Platform,
    ledger: u32,
}

impl Chain {
    fn withdraw(&mut self, amount: i128) -> Result<(), EscrowError> {
        self.platform.withdraw_protocol_fees(ADMIN, amount, DESTINATION, self.ledger).map(|_| ())
    }

    fn advance_ledgers(&mut self, delta: u32) {
        self.ledger += delta;
    }
}

fn setup() -> Chain {
    Chain { platform: Platform::new(ADMIN), ledger: 1 }
}

/// A chain whose platform has earned 100 in fees (10 % of a 1,000 payout).
fn setup_with_accumulated_fees() -> (Chain, i128) {
    let (platform, token, destination, accumulated) =
        scenarios::setup_with_accumulated_fees(ADMIN, CLIENT, FREELANCER, 1000, 1_000, DESTINATION);
    assert_eq!(accumulated, 100);
    assert_eq!(destination, DESTINATION);
    assert_eq!(token.balance(Holder::Escrow), 100);
    assert_eq!(platform.accumulated_protocol_fees(), accumulated);
    (Chain { platform, ledger: 1 }, accumulated)
}

#[test]
fn fee_withdrawal_cap_defaults_to_5000() {
    let chain = setup();
    assert_eq!(chain.platform.fee_withdrawal_cap(), 5_000u32);
}

#[test]
fn fee_withdrawal_cooldown_defaults_to_17280() {
    let chain = setup();
    assert_eq!(chain.platform.fee_withdrawal_cooldown(), 17_280u32);
}

#[test]
fn last_fee_withdrawal_ledger_defaults_to_zero() {
    let chain = setup();
    assert_eq!(chain.platform.last_fee_withdrawal_ledger(), 0u32);
}

#[test]
fn set_fee_withdrawal_cap_accepts_zero() {
    let mut chain = setup();
    assert!(chain.platform.set_fee_withdrawal_cap(ADMIN, 0).is_ok());
    assert_eq!(chain.platform.fee_withdrawal_cap(), 0);
}

#[test]
fn set_fee_withdrawal_cap_accepts_10000() {
    let mut chain = setup();
    assert!(chain.platform.set_fee_withdrawal_cap(ADMIN, 10_000).is_ok());
    assert_eq!(chain.platform.fee_withdrawal_cap(), 10_000);
}

#[test]
fn set_fee_withdrawal_cap_rejects_10001() {
    let mut chain = setup();
    assert_eq!(
        chain.platform.set_fee_withdrawal_cap(ADMIN, 10_001),
        Err(EscrowError::InvalidProtocolParameters)
    );
    assert_eq!(chain.platform.fee_withdrawal_cap(), 5_000u32);
}

#[test]
fn set_fee_withdrawal_cooldown_accepts_zero() {
    let mut chain = setup();
    assert!(chain.platform.set_fee_withdrawal_cooldown(ADMIN, 0).is_ok());
    assert_eq!(chain.platform.fee_withdrawal_cooldown(), 0);
}

#[test]
fn set_fee_withdrawal_cooldown_accepts_max() {
    let mut chain = setup();
    assert!(chain.platform.set_fee_withdrawal_cooldown(ADMIN, 2_592_000).is_ok());
    assert_eq!(chain.platform.fee_withdrawal_cooldown(), 2_592_000);
}

#[test]
fn set_fee_withdrawal_cooldown_rejects_over_max() {
    let mut chain = setup();
    assert_eq!(
        chain.platform.set_fee_withdrawal_cooldown(ADMIN, 2_592_001),
        Err(EscrowError::InvalidProtocolParameters)
    );
    assert_eq!(chain.platform.fee_withdrawal_cooldown(), 17_280u32);
}

#[test]
fn withdraw_within_cap_succeeds() {
    let (mut chain, _acc) = setup_with_accumulated_fees();
    assert!(chain.withdraw(50).is_ok());
    assert_eq!(chain.platform.accumulated_protocol_fees(), 50);
}

#[test]
fn withdraw_exceeding_cap_rejected() {
    let (mut chain, acc) = setup_with_accumulated_fees();
    assert_eq!(chain.withdraw(51), Err(EscrowError::FeeWithdrawalCapExceeded));
    assert_eq!(chain.platform.accumulated_protocol_fees(), acc);
}

#[test]
fn withdraw_with_cap_disabled() {
    let (mut chain, acc) = setup_with_accumulated_fees();
    chain.platform.set_fee_withdrawal_cap(ADMIN, 0).unwrap();
    assert!(chain.withdraw(acc).is_ok());
    assert_eq!(chain.platform.accumulated_protocol_fees(), 0);
}

#[test]
fn withdraw_with_cap_at_100_percent() {
    let (mut chain, acc) = setup_with_accumulated_fees();
    chain.platform.set_fee_withdrawal_cap(ADMIN, 10_000).unwrap();
    assert!(chain.withdraw(acc).is_ok());
    assert_eq!(chain.platform.accumulated_protocol_fees(), 0);
}

#[test]
fn withdraw_cap_ceiling_division_2_passes() {
    let (mut chain, _acc) = setup_with_accumulated_fees();
    chain.platform.set_fee_withdrawal_cap(ADMIN, 50).unwrap();
    assert!(chain.withdraw(1).is_ok());
}

#[test]
fn withdraw_cap_ceiling_division_3_fails() {
    let (mut chain, _acc) = setup_with_accumulated_fees();
    chain.platform.set_fee_withdrawal_cap(ADMIN, 50).unwrap();
    assert_eq!(chain.withdraw(2), Err(EscrowError::FeeWithdrawalCapExceeded));
}

#[test]
fn first_withdrawal_succeeds_no_cooldown() {
    let (mut chain, acc) = setup_with_accumulated_fees();
    assert!(chain.withdraw(acc / 2).is_ok());
    assert_eq!(chain.platform.last_fee_withdrawal_ledger(), 1u32);
}

#[test]
fn second_withdrawal_within_cooldown_rejected() {
    let (mut chain, acc) = setup_with_accumulated_fees();
    chain.platform.set_fee_withdrawal_cooldown(ADMIN, 100).unwrap();
    assert!(chain.withdraw(acc / 2).is_ok());
    assert_eq!(chain.withdraw(1), Err(EscrowError::FeeWithdrawalCooldownActive));
}

#[test]
fn withdrawal_after_cooldown_succeeds() {
    let (mut chain, acc) = setup_with_accumulated_fees();
    chain.platform.set_fee_withdrawal_cooldown(ADMIN, 10).unwrap();
    assert!(chain.withdraw(acc / 2).is_ok());
    assert_eq!(chain.withdraw(1), Err(EscrowError::FeeWithdrawalCooldownActive));
    chain.advance_ledgers(11);
    assert!(chain.withdraw(1).is_ok());
}

#[test]
fn withdrawal_with_cooldown_disabled() {
    let (mut chain, _acc) = setup_with_accumulated_fees();
    chain.platform.set_fee_withdrawal_cooldown(ADMIN, 0).unwrap();
    chain.platform.set_fee_withdrawal_cap(ADMIN, 10_000).unwrap();
    assert!(chain.withdraw(50).is_ok());
    assert!(chain.withdraw(50).is_ok());
}

#[test]
fn withdraw_exactly_at_cooldown_boundary() {
    let (mut chain, acc) = setup_with_accumulated_fees();
    chain.platform.set_fee_withdrawal_cooldown(ADMIN, 10).unwrap();
    assert!(chain.withdraw(acc / 2).is_ok());
    chain.advance_ledgers(10);
    assert!(chain.withdraw(1).is_ok());
}

#[test]
fn withdraw_one_ledger_before_cooldown_boundary() {
    let (mut chain, acc) = setup_with_accumulated_fees();
    chain.platform.set_fee_withdrawal_cooldown(ADMIN, 10).unwrap();
    assert!(chain.withdraw(acc / 2).is_ok());
    chain.advance_ledgers(9);
    assert_eq!(chain.withdraw(1), Err(EscrowError::FeeWithdrawalCooldownActive));
}

#[test]
fn cap_and_cooldown_work_together() {
    let (mut chain, _acc) = setup_with_accumulated_fees();
    chain.platform.set_fee_withdrawal_cooldown(ADMIN, 10).unwrap();
    assert!(chain.withdraw(50).is_ok());
    assert_eq!(chain.platform.accumulated_protocol_fees(), 50);
    assert_eq!(chain.withdraw(25), Err(EscrowError::FeeWithdrawalCooldownActive));
    chain.advance_ledgers(11);
    assert_eq!(chain.withdraw(26), Err(EscrowError::FeeWithdrawalCapExceeded));
    assert!(chain.withdraw(25).is_ok());
    assert_eq!(chain.platform.accumulated_protocol_fees(), 25);
}

#[test]
fn partial_withdrawal_keeps_exact_accounting() {
    let (mut chain, acc) = setup_with_accumulated_fees();
    chain.platform.set_fee_withdrawal_cooldown(ADMIN, 10).unwrap();
    let first: i128 = 50;
    assert!(chain.withdraw(first).is_ok());
    assert_eq!(chain.platform.accumulated_protocol_fees(), acc - first);
    chain.advance_ledgers(11);
    chain.platform.set_fee_withdrawal_cap(ADMIN, 10_000).unwrap();
    let second: i128 = acc - first;
    assert!(chain.withdraw(second).is_ok());
    assert_eq!(chain.platform.accumulated_protocol_fees(), 0);
}

#[test]
fn withdraw_rejected_when_paused() {
    let (mut chain, _acc) = setup_with_accumulated_fees();
    chain.platform.pause(ADMIN).unwrap();
    assert_eq!(chain.withdraw(1), Err(EscrowError::ContractPaused));
}

#[test]
fn withdraw_rejects_more_than_accumulated() {
    let (mut chain, acc) = setup_with_accumulated_fees();
    assert_eq!(chain.withdraw(acc + 1), Err(EscrowError::InsufficientAccumulatedFees));
}

#[test]
fn withdraw_rejects_zero_amount() {
    let (mut chain, _acc) = setup_with_accumulated_fees();
    assert_eq!(chain.withdraw(0), Err(EscrowError::AmountMustBePositive));
}

#[test]
fn rate_limit_getters_consistent() {
    let mut chain = setup();
    assert_eq!(chain.platform.fee_withdrawal_cap(), 5_000);
    assert_eq!(chain.platform.fee_withdrawal_cooldown(), 17_280);
    assert_eq!(chain.platform.last_fee_withdrawal_ledger(), 0);
    chain.platform.set_fee_withdrawal_cap(ADMIN, 2_500).unwrap();
    chain.platform.set_fee_withdrawal_cooldown(ADMIN, 3_600).unwrap();
    assert_eq!(chain.platform.fee_withdrawal_cap(), 2_500);
    assert_eq!(chain.platform.fee_withdrawal_cooldown(), 3_600);
    assert_eq!(chain.platform.last_fee_withdrawal_ledger(), 0);
}

#[test]
fn multiple_withdrawals_cycle_with_cooldown() {
    let (mut chain, acc) = setup_with_accumulated_fees();
    chain.platform.set_fee_withdrawal_cooldown(ADMIN, 5).unwrap();
    let mut remaining = acc;

    assert!(chain.withdraw(50).is_ok());
    remaining -= 50;
    chain.advance_ledgers(6);

    assert!(chain.withdraw(25).is_ok());
    remaining -= 25;
    chain.advance_ledgers(6);

    chain.platform.set_fee_withdrawal_cap(ADMIN, 10_000).unwrap();
    assert!(chain.withdraw(25).is_ok());
    remaining -= 25;

    assert_eq!(remaining, 0);
    assert_eq!(chain.platform.accumulated_protocol_fees(), 0);
}

#[test]
fn withdrawal_allowance_rounds_up() {
    assert_eq!(fee_withdrawal_allowance(100, 50), 1);
    assert_eq!(fee_withdrawal_allowance(100, 5_000), 50);
    assert_eq!(fee_withdrawal_allowance(50, 5_000), 25);
    assert_eq!(fee_withdrawal_allowance(10_001, 10_000), 10_001);
    assert_eq!(fee_withdrawal_allowance(0, 10_000), 0);
    assert_eq!(fee_withdrawal_allowance(i128::MAX, 10_000), i128::MAX);
}
