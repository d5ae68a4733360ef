use solana_reputation_dao::errors::ReputationError;
use solana_reputation_dao::instructions::initialize_profile::new_profile;
use solana_reputation_dao::state::account_key::AccountKey;
use solana_reputation_dao::state::reputation_profile::Category;
use solana_reputation_dao::utils::security::{
    calculate_daily_limit, count_daily_interactions, validate_interaction_limits,
    validate_interaction_permissions,
};

fn key(b: u8) -> AccountKey {
    AccountKey::new([b; 32])
}

#[test]
fn guard_checks_cooldown_before_self() {
    let mut p = new_profile(key(1));
    p.last_activity = 1000;
    let r = validate_interaction_limits(&p, &p, 0, 1100, 300);
    assert_eq!(r.unwrap_err(), ReputationError::CooldownActive);
    let r = validate_interaction_limits(&p, &p, 0, 1300, 300);
    assert_eq!(r.unwrap_err(), ReputationError::SelfInteractionForbidden);
    let q = new_profile(key(2));
    assert!(validate_interaction_limits(&p, &q, 0, 1300, 300).is_ok());
}

#[test]
fn guard_daily_limit_before_permission() {
    let mut p = new_profile(key(1));
    p.last_activity = 0;
    p.interaction_count = 7;
    let q = new_profile(key(2));
    let r = validate_interaction_limits(&p, &q, 9, 1000, 300);
    assert_eq!(r.unwrap_err(), ReputationError::DailyLimitExceeded);
    p.interaction_count = 4;
    let r = validate_interaction_limits(&p, &q, 9, 1000, 300);
    assert_eq!(r.unwrap_err(), ReputationError::InsufficientReputation);
}

#[test]
fn daily_limit_tiers() {
    assert_eq!(calculate_daily_limit(0), 5);
    assert_eq!(calculate_daily_limit(100), 5);
    assert_eq!(calculate_daily_limit(101), 15);
    assert_eq!(calculate_daily_limit(500), 15);
    assert_eq!(calculate_daily_limit(1000), 30);
    assert_eq!(calculate_daily_limit(5000), 50);
    assert_eq!(calculate_daily_limit(5001), 100);
}

#[test]
fn daily_count_approximation() {
    let mut p = new_profile(key(1));
    p.interaction_count = 250;
    p.last_activity = 0;
    assert_eq!(count_daily_interactions(&p, 86400), 50);
    assert_eq!(count_daily_interactions(&p, 86401), 0);
}

#[test]
fn permission_of_unknown_type() {
    let mut p = new_profile(key(1));
    p.total_score = u64::MAX;
    p.cross_dao_reputation = 1;
    assert!(validate_interaction_permissions(&p, 9).is_ok());
    assert_eq!(
        validate_interaction_permissions(&p, 10).unwrap_err(),
        ReputationError::InvalidInteractionType
    );
}

#[test]
fn category_slots() {
    assert_eq!(Category::Development.index(), 0);
    assert_eq!(Category::Governance.index(), 1);
    assert_eq!(Category::Community.index(), 2);
    assert_eq!(Category::Innovation.index(), 3);
    assert_eq!(Category::Security.index(), 4);
}

#[test]
fn error_messages() {
    assert_eq!(ReputationError::CooldownActive.message(), "Cooldown period still active");
    assert_eq!(ReputationError::BadgeAlreadyClaimed.message(), "Badge already claimed");
    assert_eq!(ReputationError::RealmCreationFailed.message(), "Realm creation failed");
}

#[test]
fn account_key_equality() {
    assert!(key(1) == key(1));
    assert!(key(1) != key(2));
    let mut bytes = [1u8; 32];
    bytes[31] = 2;
    assert!(AccountKey::new(bytes) != key(1));
    assert!(AccountKey::zero() == key(0));
}
