//! Releasing the milestones of a funded fixture.

use escrow::defaults::MILESTONE_ONE;
use escrow::errors::EscrowError;
use escrow::fixture::EscrowFixture;
use escrow::types::ContractStatus;

#[test]
fn release_funded_milestones_completes_contract() {
    let mut fixture = EscrowFixture::builder().funded().build();
    let (cid, client) = (fixture.escrow_id, fixture.client);

    for index in 0..3_u32 {
        assert!(fixture.platform.approve_milestone_release(cid, client, index).is_ok());
        assert!(fixture.platform.release_milestone(cid, client, index).is_ok());
    }

    let contract = fixture.escrow().get_contract(cid).unwrap();
    assert_eq!(contract.status, ContractStatus::Completed);
    assert_eq!(contract.released_amount, fixture.total_amount());
}

#[test]
fn release_rejects_an_already_released_milestone() {
    let mut fixture = EscrowFixture::builder().funded().build();
    let (cid, client) = (fixture.escrow_id, fixture.client);
    assert!(fixture.platform.approve_milestone_release(cid, client, 0).is_ok());
    assert!(fixture.platform.release_milestone(cid, client, 0).is_ok());

    assert!(fixture.platform.approve_milestone_release(cid, client, 0).is_ok());
    assert_eq!(fixture.platform.release_milestone(cid, client, 0), Err(EscrowError::AlreadyReleased));
    assert_eq!(fixture.escrow().get_contract(cid).unwrap().released_amount, MILESTONE_ONE);
}
