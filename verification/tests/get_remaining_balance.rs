//! What a contract still holds after releases.

use escrow::platform::Platform;
use escrow::types::{AccountId, ReleaseAuthorization};

const CLIENT: AccountId = 10;
const FREELANCER: AccountId = 20;

fn funded(amounts: &[i128]) -> (Platform, u32) {
    let mut p = Platform::new(1);
    let id = p.create_contract(CLIENT, FREELANCER, None, amounts, ReleaseAuthorization::ClientOnly).unwrap();
    p.deposit_funds(id, CLIENT, amounts.iter().sum()).unwrap();
    (p, id)
}

fn release(p: &mut Platform, id: u32, index: u32) {
    p.approve_milestone_release(id, CLIENT, index).unwrap();
    p.release_milestone(id, CLIENT, index).unwrap();
}

#[test]
fn remaining_balance_before_any_release() {
    let (p, id) = funded(&[500]);
    assert_eq!(p.get_remaining_balance(id), Ok(500));
}

#[test]
fn remaining_balance_after_partial_release() {
    let (mut p, id) = funded(&[300, 200]);
    release(&mut p, id, 0);
    assert_eq!(p.get_remaining_balance(id), Ok(200));
}

#[test]
fn remaining_balance_after_full_release() {
    let (mut p, id) = funded(&[400, 100]);
    release(&mut p, id, 0);
    release(&mut p, id, 1);
    assert_eq!(p.get_remaining_balance(id), Ok(0));
}

#[test]
#[should_panic]
fn remaining_balance_over_release_panics() {
    let (mut p, id) = funded(&[250]);
    release(&mut p, id, 0);
    p.release_milestone(id, CLIENT, 0).unwrap();
}

#[test]
fn remaining_balance_repeat_final_release_no_change() {
    let (mut p, id) = funded(&[150]);
    release(&mut p, id, 0);
    assert_eq!(p.get_remaining_balance(id), Ok(0));
    assert_eq!(p.get_remaining_balance(id), Ok(0));
}

#[test]
fn remaining_balance_counts_refunds_and_unknown_contracts() {
    let (mut p, id) = funded(&[300, 200]);
    p.refund_unreleased_milestones(id, CLIENT, &[1]).unwrap();
    assert_eq!(p.get_remaining_balance(id), Ok(300));
    assert_eq!(p.get_remaining_balance(77), Err(escrow::errors::EscrowError::ContractNotFound));
}
