use vstd::prelude::*;
use crate::errors::{outcome, ReputationError};
use crate::state::governance_realm::{is_admin, GovernanceRealm};
use crate::state::reputation_profile::{is_member, ReputationProfile};
use crate::utils::reputation_math::{elapsed, elapsed_since, sat_mul, saturating_mul};

verus! {

/// Interactions a day allowed for a total score.
pub open spec fn daily_limit(reputation: u64) -> u32 {
    if reputation <= 100 {
        5
    } else if reputation <= 500 {
        15
    } else if reputation <= 1000 {
        30
    } else if reputation <= 5000 {
        50
    } else {
        100
    }
}

/// The approximate count of today's interactions: zero after a full idle day,
/// else the interaction count modulo 100.
pub open spec fn daily_count(p: ReputationProfile, now: i64) -> u32 {
    if elapsed(now, p.last_activity) > 86400 {
        0
    } else {
        (p.interaction_count % 100) as u32
    }
}

/// Why a profile may not start an interaction of type `t`, if it may not.
pub open spec fn permission_failure(p: ReputationProfile, t: u8) -> Option<ReputationError> {
    if t <= 2 {
        None
    } else if t <= 5 {
        if p.total_score >= 100 {
            None
        } else {
            Some(ReputationError::InsufficientReputation)
        }
    } else if t <= 8 {
        if p.total_score >= 500 {
            None
        } else {
            Some(ReputationError::InsufficientReputation)
        }
    } else if t == 9 {
        if p.total_score >= 1000 && p.cross_dao_reputation > 0 {
            None
        } else {
            Some(ReputationError::InsufficientReputation)
        }
    } else {
        Some(ReputationError::InvalidInteractionType)
    }
}

/// The first failing anti-abuse check for an interaction, in order: cooldown
/// (waived above a total score of 1000), self-interaction, daily limit, and
/// permission by type.
pub open spec fn limits_failure(
    from: ReputationProfile,
    to: ReputationProfile,
    t: u8,
    now: i64,
    cooldown: i64,
) -> Option<ReputationError> {
    if !(elapsed(now, from.last_activity) >= cooldown || from.total_score > 1000) {
        Some(ReputationError::CooldownActive)
    } else if from.wallet@ == to.wallet@ {
        Some(ReputationError::SelfInteractionForbidden)
    } else if daily_count(from, now) >= daily_limit(from.total_score) {
        Some(ReputationError::DailyLimitExceeded)
    } else {
        permission_failure(from, t)
    }
}

/// Checks that `from_profile` may start an interaction of the given type
/// with `to_profile` at `now`, under the given cooldown.
pub fn validate_interaction_limits(
    from_profile: &ReputationProfile,
    to_profile: &ReputationProfile,
    interaction_type: u8,
    now: i64,
    cooldown_period: i64,
) -> (r: Result<(), ReputationError>)
    ensures
        r == outcome(limits_failure(*from_profile, *to_profile, interaction_type, now, cooldown_period)),
{
    let since = elapsed_since(now, from_profile.last_activity);
    if !(since >= cooldown_period || from_profile.total_score > 1000) {
        return Err(ReputationError::CooldownActive);
    }
    if from_profile.wallet.same_as(&to_profile.wallet) {
        return Err(ReputationError::SelfInteractionForbidden);
    }
    let limit = calculate_daily_limit(from_profile.total_score);
    let today = count_daily_interactions(from_profile, now);
    if today >= limit {
        return Err(ReputationError::DailyLimitExceeded);
    }
    validate_interaction_permissions(from_profile, interaction_type)
}

/// Interactions a day allowed for a total score.
pub fn calculate_daily_limit(reputation: u64) -> (r: u32)
    ensures
        r == daily_limit(reputation),
{
    if reputation <= 100 {
        5
    } else if reputation <= 500 {
        15
    } else if reputation <= 1000 {
        30
    } else if reputation <= 5000 {
        50
    } else {
        100
    }
}

/// The approximate count of the profile's interactions today.
pub fn count_daily_interactions(profile: &ReputationProfile, now: i64) -> (r: u32)
    ensures
        r == daily_count(*profile, now),
{
    let since = elapsed_since(now, profile.last_activity);
    if since > 86400 {
        0
    } else {
        profile.interaction_count % 100
    }
}

/// Checks that the profile's standing allows an interaction of type `t`.
pub fn validate_interaction_permissions(profile: &ReputationProfile, interaction_type: u8) -> (r:
    Result<(), ReputationError>)
    ensures
        r == outcome(permission_failure(*profile, interaction_type)),
{
    match interaction_type {
        0..=2 => Ok(()),
        3..=5 => if profile.total_score >= 100 {
            Ok(())
        } else {
            Err(ReputationError::InsufficientReputation)
        },
        6..=8 => if profile.total_score >= 500 {
            Ok(())
        } else {
            Err(ReputationError::InsufficientReputation)
        },
        9 => if profile.total_score >= 1000 && profile.cross_dao_reputation > 0 {
            Ok(())
        } else {
            Err(ReputationError::InsufficientReputation)
        },
        _ => Err(ReputationError::InvalidInteractionType),
    }
}

/// Why a profile may not take action `action` (0 vote, 1 propose, 2 admin)
/// in a realm, if it may not.
pub open spec fn realm_action_failure(
    p: ReputationProfile,
    realm: GovernanceRealm,
    action: u8,
) -> Option<ReputationError> {
    if p.total_score < realm.min_reputation_threshold {
        Some(ReputationError::InsufficientReputation)
    } else if !is_member(p, realm.realm_id@) {
        Some(ReputationError::NotRealmMember)
    } else if action == 0 {
        None
    } else if action == 1 {
        if p.total_score >= sat_mul(realm.min_reputation_threshold, 2) {
            None
        } else {
            Some(ReputationError::InsufficientReputation)
        }
    } else if action == 2 {
        if is_admin(realm, p.wallet@) {
            None
        } else {
            Some(ReputationError::AdminRequired)
        }
    } else {
        Some(ReputationError::InvalidActionType)
    }
}

/// Checks that a member profile may take the given action in the realm.
pub fn authorize_realm_action(
    profile: &ReputationProfile,
    realm: &GovernanceRealm,
    action_type: u8,
) -> (r: Result<(), ReputationError>)
    ensures
        r == outcome(realm_action_failure(*profile, *realm, action_type)),
{
    if profile.total_score < realm.min_reputation_threshold {
        return Err(ReputationError::InsufficientReputation);
    }
    if !profile.is_member_of(&realm.realm_id) {
        return Err(ReputationError::NotRealmMember);
    }
    match action_type {
        0 => Ok(()),
        1 => if profile.total_score >= saturating_mul(realm.min_reputation_threshold, 2) {
            Ok(())
        } else {
            Err(ReputationError::InsufficientReputation)
        },
        2 => if realm.has_admin(&profile.wallet) {
            Ok(())
        } else {
            Err(ReputationError::AdminRequired)
        },
        _ => Err(ReputationError::InvalidActionType),
    }
}

/// Relief (percent) on the cooldown for a total score.
pub open spec fn reputation_relief(reputation: u64) -> int {
    if reputation > 1000 {
        50
    } else if reputation > 500 {
        75
    } else {
        100
    }
}

/// Penalty (percent) on the cooldown for the count of recent interactions.
pub open spec fn frequency_penalty(recent: u32) -> int {
    if recent <= 5 {
        100
    } else if recent <= 15 {
        150
    } else if recent <= 30 {
        200
    } else {
        300
    }
}

/// `a / b` rounded toward zero, as integer division on machine integers is.
pub open spec fn div_toward_zero(a: int, b: int) -> int {
    if a >= 0 {
        a / b
    } else {
        -((-a) / b)
    }
}

/// The scaled cooldown, before it is cut to machine size.
pub open spec fn dynamic_cooldown(base: i64, recent: u32, reputation: u64) -> int {
    div_toward_zero(base * frequency_penalty(recent) * reputation_relief(reputation), 10000)
}

/// Scales a base cooldown up by the frequency of recent interactions and down
/// by standing.
pub fn calculate_dynamic_cooldown(base_cooldown: i64, recent_interactions: u32, reputation: u64) -> (r: i64)
    requires
        i64::MIN <= base_cooldown * frequency_penalty(recent_interactions) * reputation_relief(
            reputation,
        ) <= i64::MAX,
    ensures
        r == dynamic_cooldown(base_cooldown, recent_interactions, reputation),
{
    let reputation_factor: i64 = if reputation > 1000 {
        50
    } else if reputation > 500 {
        75
    } else {
        100
    };
    let penalty: i64 = if recent_interactions <= 5 {
        100
    } else if recent_interactions <= 15 {
        150
    } else if recent_interactions <= 30 {
        200
    } else {
        300
    };
    assert(i64::MIN <= base_cooldown * penalty <= i64::MAX) by (nonlinear_arith)
        requires
            i64::MIN <= base_cooldown * penalty * reputation_factor <= i64::MAX,
            50 <= reputation_factor,
            100 <= penalty,
    ;
    (base_cooldown * penalty * reputation_factor) / 10000
}

} // verus!
