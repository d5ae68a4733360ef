use solana_reputation_dao::errors::ReputationError;
use solana_reputation_dao::instructions::bridge_reputation::BridgeReputation;
use solana_reputation_dao::instructions::cast_reputation_vote::CastReputationVote;
use solana_reputation_dao::instructions::claim_badge::ClaimBadge;
use solana_reputation_dao::instructions::create_realm::CreateRealm;
use solana_reputation_dao::instructions::delegate_reputation::DelegateReputation;
use solana_reputation_dao::instructions::initialize_profile::new_profile;
use solana_reputation_dao::instructions::update_algorithm::UpdateAlgorithm;
use solana_reputation_dao::state::account_key::AccountKey;
use solana_reputation_dao::state::badge_system::{BadgeReceipt, BadgeType};
use solana_reputation_dao::state::governance_realm::{GovernanceRealm, ReputationAlgorithm};
use solana_reputation_dao::state::reputation_profile::ReputationProfile;
use solana_reputation_dao::utils::reputation_math::calculate_reputation_decay;
use solana_reputation_dao::utils::security::{authorize_realm_action, calculate_dynamic_cooldown};
use solana_reputation_dao::utils::sybil_score::validate_with_ai_score;
use solana_reputation_dao::{
    bridge_reputation, cast_reputation_vote, claim_badge, create_realm, delegate_reputation,
    update_algorithm,
};

const DAY: i64 = 86400;

fn key(b: u8) -> AccountKey {
    AccountKey::new([b; 32])
}

fn blank_receipt() -> BadgeReceipt {
    BadgeReceipt { owner: AccountKey::zero(), badge_type: 0, proof_hash: [0; 32], earned_at: 0 }
}

fn realm_with(threshold: u64, admin: AccountKey) -> GovernanceRealm {
    GovernanceRealm {
        realm_id: key(50),
        name: [0; 32],
        admin_wallets: [admin, AccountKey::zero(), AccountKey::zero()],
        reputation_algorithm: ReputationAlgorithm {
            development_weight: 1,
            governance_weight: 1,
            community_weight: 1,
            innovation_weight: 1,
            security_weight: 1,
            decay_factor: 2,
            ai_enhancement: true,
            cross_realm_factor: 10,
        },
        total_members: 0,
        active_proposals: 0,
        treasury_balance: 0,
        governance_token: None,
        min_reputation_threshold: threshold,
        voting_period_seconds: 0,
        cross_realm_enabled: true,
        ai_moderation_enabled: false,
        created_at: 0,
    }
}

fn claim_ctx() -> ClaimBadge {
    ClaimBadge { profile: new_profile(key(1)), badge_account: blank_receipt(), user: key(1) }
}

#[test]
fn badge_claimed_twice_fails_second_time() {
    let mut ctx = claim_ctx();
    assert!(claim_badge(&mut ctx, 1, [7; 32], 1234).is_ok());
    assert_eq!(ctx.profile.badges[0].badge_type, BadgeType::Developer);
    assert_eq!(ctx.profile.badges[0].earned_at, 1234);
    assert_eq!(ctx.profile.badges[0].metadata_hash, [7; 32]);
    assert_eq!(ctx.profile.total_score, 25);
    assert_eq!(ctx.profile.category_scores, [25, 0, 0, 0, 0]);
    assert!(ctx.badge_account.owner == key(1));
    assert_eq!(ctx.badge_account.badge_type, 1);
    assert_eq!(ctx.badge_account.proof_hash, [7; 32]);
    assert_eq!(ctx.badge_account.earned_at, 1234);
    let r = claim_badge(&mut ctx, 1, [8; 32], 5678);
    assert_eq!(r.unwrap_err(), ReputationError::BadgeAlreadyClaimed);
    assert_eq!(ctx.profile.total_score, 25);
    assert_eq!(ctx.profile.category_scores, [25, 0, 0, 0, 0]);
    assert_eq!(ctx.badge_account.proof_hash, [7; 32]);
    assert_eq!(ctx.badge_account.earned_at, 1234);
    assert_eq!(ctx.profile.badges[1].badge_type, BadgeType::NoBadge);
}

#[test]
fn badge_code_out_of_range_rejected() {
    let mut ctx = claim_ctx();
    let r = claim_badge(&mut ctx, 11, [0; 32], 0);
    assert_eq!(r.unwrap_err(), ReputationError::InvalidBadgeProof);
    assert_eq!(ctx.profile.total_score, 0);
}

#[test]
fn badge_none_code_counts_as_held_while_slots_are_empty() {
    let mut ctx = claim_ctx();
    let r = claim_badge(&mut ctx, 0, [0; 32], 0);
    assert_eq!(r.unwrap_err(), ReputationError::BadgeAlreadyClaimed);
}

#[test]
fn badge_categories_follow_kind() {
    let mut ctx = claim_ctx();
    for code in [2u8, 3, 4, 5, 6, 7, 8, 9, 10] {
        assert!(claim_badge(&mut ctx, code, [code; 32], code as i64).is_ok());
    }
    // governance 2; community 3,6,7,8,10; security 4; innovation 5,9
    assert_eq!(ctx.profile.category_scores, [0, 25, 125, 50, 25]);
    assert_eq!(ctx.profile.total_score, 225);
    assert_eq!(ctx.profile.badges[8].badge_type, BadgeType::Custom);
    assert_eq!(ctx.profile.badges[9].badge_type, BadgeType::NoBadge);
}

#[test]
fn badge_full_slots_overwrite_last() {
    let mut ctx = claim_ctx();
    for code in 1u8..=10 {
        assert!(claim_badge(&mut ctx, code, [code; 32], code as i64).is_ok());
    }
    assert_eq!(ctx.profile.badges[9].badge_type, BadgeType::Custom);
    // all slots full: a claim of the empty kind lands in the last slot
    assert!(claim_badge(&mut ctx, 0, [99; 32], 99).is_ok());
    assert_eq!(ctx.profile.badges[9].badge_type, BadgeType::NoBadge);
    assert_eq!(ctx.profile.badges[9].metadata_hash, [99; 32]);
    assert_eq!(ctx.profile.badges[0].badge_type, BadgeType::Developer);
    assert_eq!(ctx.profile.total_score, 275);
    // the last slot is now empty again, so the next claim fills it
    assert!(claim_badge(&mut ctx, 10, [5; 32], 100).is_ok());
    assert_eq!(ctx.profile.badges[9].badge_type, BadgeType::Custom);
}

#[test]
fn badge_type_codes() {
    assert_eq!(BadgeType::try_from(0), Ok(BadgeType::NoBadge));
    assert_eq!(BadgeType::try_from(4), Ok(BadgeType::SecurityAuditor));
    assert_eq!(BadgeType::try_from(10), Ok(BadgeType::Custom));
    assert_eq!(BadgeType::try_from(11), Err(()));
    assert_eq!(BadgeType::default(), BadgeType::NoBadge);
}

fn delegation(total: u64) -> DelegateReputation {
    let mut from = new_profile(key(1));
    from.total_score = total;
    DelegateReputation { delegator_profile: from, delegatee_profile: new_profile(key(2)), delegator: key(1) }
}

#[test]
fn delegating_half_twice_does_not_double_count() {
    let mut ctx = delegation(1000);
    assert!(delegate_reputation(&mut ctx, key(2), 50).is_ok());
    assert_eq!(ctx.delegator_profile.delegated_power, 500);
    assert_eq!(ctx.delegatee_profile.delegation_received, 500);
    assert!(delegate_reputation(&mut ctx, key(2), 50).is_ok());
    assert_eq!(ctx.delegator_profile.delegated_power, 500);
    assert_eq!(ctx.delegatee_profile.delegation_received, 500);
}

#[test]
fn delegation_credits_only_increase() {
    let mut ctx = delegation(1000);
    assert!(delegate_reputation(&mut ctx, key(2), 50).is_ok());
    assert!(delegate_reputation(&mut ctx, key(2), 80).is_ok());
    assert_eq!(ctx.delegator_profile.delegated_power, 800);
    assert_eq!(ctx.delegatee_profile.delegation_received, 800);
    assert!(delegate_reputation(&mut ctx, key(2), 20).is_ok());
    assert_eq!(ctx.delegator_profile.delegated_power, 200);
    assert_eq!(ctx.delegatee_profile.delegation_received, 800);
}

#[test]
fn delegation_power_truncates_and_covers_max_score() {
    let mut ctx = delegation(999);
    assert!(delegate_reputation(&mut ctx, key(2), 33).is_ok());
    assert_eq!(ctx.delegator_profile.delegated_power, 329);
    let mut ctx = delegation(u64::MAX);
    assert!(delegate_reputation(&mut ctx, key(2), 100).is_ok());
    assert_eq!(ctx.delegator_profile.delegated_power, u64::MAX);
}

#[test]
fn delegation_errors() {
    let mut ctx = delegation(1000);
    assert_eq!(delegate_reputation(&mut ctx, key(2), 0).unwrap_err(), ReputationError::DelegationTooHigh);
    assert_eq!(delegate_reputation(&mut ctx, key(2), 101).unwrap_err(), ReputationError::DelegationTooHigh);
    assert_eq!(
        delegate_reputation(&mut ctx, key(1), 10).unwrap_err(),
        ReputationError::SelfDelegationForbidden
    );
    assert_eq!(
        delegate_reputation(&mut ctx, key(3), 10).unwrap_err(),
        ReputationError::ProfileNotInitialized
    );
    assert_eq!(ctx.delegator_profile.delegated_power, 0);
    assert_eq!(ctx.delegatee_profile.delegation_received, 0);
}

fn decaying(score: u64) -> ReputationProfile {
    let mut p = new_profile(key(1));
    p.total_score = score;
    p.category_scores = [score, 0, 1, 3000, score];
    p
}

#[test]
fn decay_is_noop_within_seven_days_and_idempotent() {
    let mut p = decaying(3000);
    let now = 7 * DAY + DAY - 1;
    assert!(calculate_reputation_decay(&mut p, now).is_ok());
    assert_eq!(p.total_score, 3000);
    assert!(calculate_reputation_decay(&mut p, now).is_ok());
    assert_eq!(p.total_score, 3000);
    assert_eq!(p.category_scores, [3000, 0, 1, 3000, 3000]);
}

#[test]
fn decay_after_eight_days() {
    let mut p = decaying(3000);
    assert!(calculate_reputation_decay(&mut p, 8 * DAY).is_ok());
    // 3000 * 2 * 8 / 3000 = 16
    assert_eq!(p.total_score, 2984);
    assert_eq!(p.category_scores, [2984, 0, 1, 2984, 2984]);
    assert_eq!(p.last_activity, 0);
    // decay does not move the activity time, so a second call decays again
    assert!(calculate_reputation_decay(&mut p, 8 * DAY).is_ok());
    assert_eq!(p.total_score, 2969);
}

#[test]
fn decay_floors_at_zero() {
    let mut p = decaying(1000);
    p.reputation_decay_rate = 255;
    assert!(calculate_reputation_decay(&mut p, 100 * DAY).is_ok());
    assert_eq!(p.total_score, 0);
    assert_eq!(p.category_scores, [0, 0, 0, 0, 0]);
}

#[test]
fn decay_before_last_activity_is_noop() {
    let mut p = decaying(1000);
    p.last_activity = 100 * DAY;
    assert!(calculate_reputation_decay(&mut p, 0).is_ok());
    assert_eq!(p.total_score, 1000);
}

#[test]
fn bridge_adds_weight_times_factor() {
    let mut ctx = BridgeReputation { profile: new_profile(key(1)), realm: realm_with(50, key(9)), user: key(1) };
    assert!(bridge_reputation(&mut ctx, key(77), 5).is_ok());
    assert_eq!(ctx.profile.cross_dao_reputation, 50);
    assert_eq!(ctx.profile.total_score, 25);
    assert!(bridge_reputation(&mut ctx, key(77), 255).is_ok());
    assert_eq!(ctx.profile.cross_dao_reputation, 2600);
    assert_eq!(ctx.profile.total_score, 25 + 1275);
}

#[test]
fn bridge_errors() {
    let mut ctx = BridgeReputation { profile: new_profile(key(1)), realm: realm_with(50, key(9)), user: key(1) };
    assert_eq!(bridge_reputation(&mut ctx, key(77), 0).unwrap_err(), ReputationError::BridgeOperationFailed);
    ctx.realm.cross_realm_enabled = false;
    assert_eq!(bridge_reputation(&mut ctx, key(77), 5).unwrap_err(), ReputationError::CrossRealmDisabled);
    assert_eq!(ctx.profile.cross_dao_reputation, 0);
}

fn vote_ctx(score: u64, threshold: u64) -> CastReputationVote {
    let mut p = new_profile(key(1));
    p.total_score = score;
    CastReputationVote { voter_profile: p, realm: realm_with(threshold, key(9)), voter: key(1) }
}

#[test]
fn vote_increments_total_and_governance() {
    let mut ctx = vote_ctx(50, 50);
    assert!(cast_reputation_vote(&mut ctx, 0, "yes").is_ok());
    assert_eq!(ctx.voter_profile.total_score, 55);
    assert_eq!(ctx.voter_profile.category_scores, [0, 5, 0, 0, 0]);
    assert!(cast_reputation_vote(&mut ctx, 2, "").is_ok());
    assert_eq!(ctx.voter_profile.total_score, 70);
    assert_eq!(ctx.voter_profile.category_scores, [0, 20, 0, 0, 0]);
}

#[test]
fn vote_threshold_capped_at_100() {
    let mut ctx = vote_ctx(100, 5000);
    assert!(cast_reputation_vote(&mut ctx, 1, "").is_ok());
    let mut ctx = vote_ctx(99, 5000);
    assert_eq!(cast_reputation_vote(&mut ctx, 1, "").unwrap_err(), ReputationError::InsufficientReputation);
}

#[test]
fn vote_errors() {
    let mut ctx = vote_ctx(500, 50);
    let long = "j".repeat(281);
    assert_eq!(cast_reputation_vote(&mut ctx, 0, &long).unwrap_err(), ReputationError::MetadataTooLong);
    assert_eq!(cast_reputation_vote(&mut ctx, 3, "").unwrap_err(), ReputationError::InvalidActionType);
    assert_eq!(ctx.voter_profile.total_score, 500);
    assert!(cast_reputation_vote(&mut ctx, 0, &"j".repeat(280)).is_ok());
}

fn realm_ctx() -> CreateRealm {
    CreateRealm { realm: realm_with(0, AccountKey::zero()), realm_key: key(50), admin: key(8) }
}

#[test]
fn create_realm_defaults() {
    let mut ctx = realm_ctx();
    assert!(create_realm(&mut ctx, "guild", [1, 0, 0, 0, 0], 4242).is_ok());
    let r = ctx.realm;
    assert!(r.realm_id == key(50));
    assert_eq!(&r.name[..5], b"guild");
    assert_eq!(r.name[5..], [0u8; 27]);
    assert!(r.admin_wallets[0] == key(8));
    assert!(r.admin_wallets[1] == AccountKey::zero());
    assert_eq!(r.reputation_algorithm.development_weight, 1);
    assert_eq!(r.reputation_algorithm.decay_factor, 2);
    assert!(r.reputation_algorithm.ai_enhancement);
    assert_eq!(r.reputation_algorithm.cross_realm_factor, 10);
    assert_eq!(r.min_reputation_threshold, 50);
    assert_eq!(r.voting_period_seconds, 259200);
    assert!(r.cross_realm_enabled);
    assert!(!r.ai_moderation_enabled);
    assert_eq!(r.governance_token, None);
    assert_eq!(r.created_at, 4242);
}

#[test]
fn create_realm_errors() {
    let mut ctx = realm_ctx();
    let long = "n".repeat(33);
    assert_eq!(create_realm(&mut ctx, &long, [1; 5], 0).unwrap_err(), ReputationError::RealmNameTooLong);
    assert_eq!(create_realm(&mut ctx, "x", [0; 5], 0).unwrap_err(), ReputationError::InvalidAlgorithmWeights);
    assert!(create_realm(&mut ctx, &"n".repeat(32), [u16::MAX; 5], 0).is_ok());
    assert_eq!(ctx.realm.name, [b'n'; 32]);
}

#[test]
fn update_algorithm_admin_only_and_unchecked_weights() {
    let mut ctx = UpdateAlgorithm { realm: realm_with(50, key(8)), admin: key(9) };
    let r = update_algorithm(&mut ctx, [0; 5], 7, false, 3);
    assert_eq!(r.unwrap_err(), ReputationError::AdminRequired);
    assert_eq!(ctx.realm.reputation_algorithm.cross_realm_factor, 10);
    ctx.admin = key(8);
    assert!(update_algorithm(&mut ctx, [0; 5], 7, false, 3).is_ok());
    let a = ctx.realm.reputation_algorithm;
    assert_eq!(a.development_weight + a.security_weight, 0);
    assert_eq!(a.decay_factor, 7);
    assert!(!a.ai_enhancement);
    assert_eq!(a.cross_realm_factor, 3);
}

#[test]
fn realm_action_authorization() {
    let realm = realm_with(100, key(1));
    let mut p = new_profile(key(1));
    p.total_score = 150;
    assert_eq!(authorize_realm_action(&p, &realm, 0).unwrap_err(), ReputationError::NotRealmMember);
    p.realm_memberships[3] = key(50);
    assert!(authorize_realm_action(&p, &realm, 0).is_ok());
    assert_eq!(authorize_realm_action(&p, &realm, 1).unwrap_err(), ReputationError::InsufficientReputation);
    assert!(authorize_realm_action(&p, &realm, 2).is_ok());
    assert_eq!(authorize_realm_action(&p, &realm, 3).unwrap_err(), ReputationError::InvalidActionType);
    p.total_score = 200;
    assert!(authorize_realm_action(&p, &realm, 1).is_ok());
    p.wallet = key(2);
    assert_eq!(authorize_realm_action(&p, &realm, 2).unwrap_err(), ReputationError::AdminRequired);
    p.total_score = 99;
    assert_eq!(authorize_realm_action(&p, &realm, 0).unwrap_err(), ReputationError::InsufficientReputation);
}

#[test]
fn dynamic_cooldown_values() {
    assert_eq!(calculate_dynamic_cooldown(300, 0, 0), 300);
    assert_eq!(calculate_dynamic_cooldown(300, 10, 600), 337);
    assert_eq!(calculate_dynamic_cooldown(300, 20, 2000), 300);
    assert_eq!(calculate_dynamic_cooldown(300, 31, 0), 900);
    assert_eq!(calculate_dynamic_cooldown(-333, 0, 0), -333);
    assert_eq!(calculate_dynamic_cooldown(-1, 0, 2000), 0);
}

#[test]
fn ai_score_blend() {
    // 300*40 + 500*35 + 700*25 = 47000
    assert_eq!(validate_with_ai_score(&[], &[]), 470);
    // xor 0 -> 300; variance 66 -> 700; |6 - 200| = 194 -> 600
    assert_eq!(validate_with_ai_score(&[1, 2, 3], &[10, 20, 30]), 515);
    // xor 255 -> 555; sum 255 vs 10*25 = 250 -> 700; variance 0 -> 700
    assert_eq!(validate_with_ai_score(&[255], &[25, 25]), 642);
    // large spread: variance capped, consistency 300; gap 1000 -> 450
    assert_eq!(validate_with_ai_score(&[], &[0, 200, 100_000]), (300 * 40 + 300 * 35 + 450 * 25) / 100);
}
