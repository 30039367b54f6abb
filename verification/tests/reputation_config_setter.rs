//! The administrator's rules for ratings: defaults, accepted and refused
//! settings.

use escrow::errors::EscrowError;
use escrow::platform::Platform;
use escrow::reputation::ReputationConfig;
use escrow::types::AccountId;

const ADMIN: AccountId = 1;

fn setup() -> Platform {
    let mut p = Platform::new(ADMIN);
    p.bind_settlement_token(ADMIN, 900).unwrap();
    p
}

#[test]
fn returns_default_after_init_before_set() {
    let p = setup();
    let config = p.reputation_config();
    assert_eq!(config, ReputationConfig::default());
    assert_eq!(config.min_rating, 1);
    assert_eq!(config.max_rating, 5);
    assert_eq!(config.max_comment_bytes, 200);
}

#[test]
fn valid_set_stores_and_readable() {
    let mut p = setup();
    assert!(p.set_reputation_config(ADMIN, 2, 8, 300).is_ok());
    let config = p.reputation_config();
    assert_eq!(config.min_rating, 2);
    assert_eq!(config.max_rating, 8);
    assert_eq!(config.max_comment_bytes, 300);
}

#[test]
fn valid_set_at_exact_ceilings_accepted() {
    let mut p = setup();
    assert!(p.set_reputation_config(ADMIN, 1, 10, 1_000).is_ok());
    let config = p.reputation_config();
    assert_eq!(config.min_rating, 1);
    assert_eq!(config.max_rating, 10);
    assert_eq!(config.max_comment_bytes, 1_000);
}

#[test]
fn valid_set_allows_equal_min_and_max_rating() {
    let mut p = setup();
    assert!(p.set_reputation_config(ADMIN, 3, 3, 50).is_ok());
    let config = p.reputation_config();
    assert_eq!(config.min_rating, 3);
    assert_eq!(config.max_rating, 3);
}

#[test]
fn min_rating_zero_rejected() {
    let mut p = setup();
    assert_eq!(p.set_reputation_config(ADMIN, 0, 5, 200), Err(EscrowError::InvalidProtocolParameters));
}

#[test]
fn max_rating_below_min_rating_rejected() {
    let mut p = setup();
    assert_eq!(p.set_reputation_config(ADMIN, 5, 4, 200), Err(EscrowError::InvalidProtocolParameters));
}

#[test]
fn max_rating_over_ceiling_rejected() {
    let mut p = setup();
    assert_eq!(p.set_reputation_config(ADMIN, 1, 11, 200), Err(EscrowError::InvalidProtocolParameters));
}

#[test]
fn max_comment_bytes_zero_rejected() {
    let mut p = setup();
    assert_eq!(p.set_reputation_config(ADMIN, 1, 5, 0), Err(EscrowError::InvalidProtocolParameters));
}

#[test]
fn max_comment_bytes_over_ceiling_rejected() {
    let mut p = setup();
    assert_eq!(p.set_reputation_config(ADMIN, 1, 5, 1_001), Err(EscrowError::InvalidProtocolParameters));
}

#[test]
fn default_unchanged_if_set_fails() {
    let mut p = setup();
    let _ = p.set_reputation_config(ADMIN, 0, 5, 200);
    assert_eq!(p.reputation_config(), ReputationConfig::default());
}

#[test]
fn non_admin_rejected() {
    let mut p = setup();
    let attacker: AccountId = 66;
    let result = p.set_reputation_config(attacker, 2, 8, 300);
    assert!(result.is_err());
    assert_eq!(p.reputation_config(), ReputationConfig::default());
}

#[test]
fn configured_scale_governs_ratings() {
    let mut p = setup();
    assert!(p.set_reputation_config(ADMIN, 2, 8, 5).is_ok());
    let id = p
        .create_contract(10, 20, None, &[100], escrow::types::ReleaseAuthorization::ClientOnly)
        .unwrap();
    p.deposit_funds(id, 10, 100).unwrap();
    p.approve_milestone_release(id, 10, 0).unwrap();
    p.release_milestone(id, 10, 0).unwrap();
    assert_eq!(p.issue_reputation(id, 10, 1, b"ok"), Err(EscrowError::InvalidRating));
    assert_eq!(p.issue_reputation(id, 10, 9, b"ok"), Err(EscrowError::InvalidRating));
    assert_eq!(p.issue_reputation(id, 10, 8, b"too long"), Err(EscrowError::CommentTooLong));
    assert!(p.issue_reputation(id, 10, 8, b"great").is_ok());
    assert_eq!(p.get_average_rating(20), Some(80_000));
}

#[test]
fn test_reputation_config_setter() {
    let p = setup();
    let config = p.reputation_config();
    assert_eq!(config, ReputationConfig::default());
}
