use vstd::prelude::*;
use vstd::string::StringSliceAdditionalSpecFns;
use crate::errors::ReputationError;
use crate::state::reputation_profile::ReputationProfile;

verus! {

/// `a * b`, clamped to the `u64` range.
pub open spec fn sat_mul(a: u64, b: u64) -> u64 {
    if a * b > u64::MAX {
        u64::MAX
    } else {
        (a * b) as u64
    }
}

/// `a - b`, floored at zero.
pub open spec fn sat_sub(a: u64, b: u64) -> u64 {
    if a >= b {
        (a - b) as u64
    } else {
        0
    }
}

/// `now - last`, clamped to the `i64` range.
pub open spec fn elapsed(now: i64, last: i64) -> int {
    let d = now - last;
    if d > i64::MAX {
        i64::MAX as int
    } else if d < i64::MIN {
        i64::MIN as int
    } else {
        d
    }
}

/// `a + b`, clamped to the `u64` range.
pub open spec fn sat_add(a: u64, b: u64) -> u64 {
    if a + b > u64::MAX {
        u64::MAX
    } else {
        (a + b) as u64
    }
}

/// The Keccak-256 digest of a byte string.
pub uninterp spec fn keccak256_of(data: Seq<u8>) -> Seq<u8>;

/// Relies on `solana_program::keccak::hash`: the Keccak-256 digest of the
/// metadata's UTF-8 bytes, which depends on those bytes alone.
#[verifier::external_body]
pub fn hash_metadata(metadata: &str) -> (r: [u8; 32])
    ensures
        r@ == keccak256_of(metadata.spec_bytes()),
{
    solana_program::keccak::hash(metadata.as_bytes()).to_bytes()
}

/// Saturating multiplication on `u64`.
pub fn saturating_mul(a: u64, b: u64) -> (r: u64)
    ensures
        r == sat_mul(a, b),
{
    match a.checked_mul(b) {
        Some(v) => v,
        None => u64::MAX,
    }
}

/// Seconds from `last` to `now`, saturating on the `i64` range.
pub fn elapsed_since(now: i64, last: i64) -> (r: i64)
    ensures
        r == elapsed(now, last),
{
    match now.checked_sub(last) {
        Some(d) => d,
        None => if last < 0 {
            i64::MAX
        } else {
            i64::MIN
        },
    }
}

/// Base score of each interaction type `0..=9`.
pub open spec fn base_delta(t: u8) -> u64 {
    if t == 0 {
        10
    } else if t == 1 {
        5
    } else if t == 2 {
        15
    } else if t == 3 {
        25
    } else if t == 4 {
        50
    } else if t == 5 {
        30
    } else if t == 6 {
        40
    } else if t == 7 {
        75
    } else if t == 8 {
        60
    } else {
        20
    }
}

/// Multiplier (percent) of the giver's standing.
pub open spec fn influence_tier(reputation: u64) -> u64 {
    if reputation <= 100 {
        80
    } else if reputation <= 500 {
        100
    } else if reputation <= 1000 {
        120
    } else if reputation <= 5000 {
        140
    } else {
        160
    }
}

/// Divisor (percent) of the receiver's standing.
pub open spec fn resistance_tier(reputation: u64) -> u64 {
    if reputation <= 100 {
        80
    } else if reputation <= 500 {
        100
    } else if reputation <= 1000 {
        120
    } else if reputation <= 5000 {
        140
    } else {
        180
    }
}

/// Multiplier (percent) for the time the giver has been idle.
pub open spec fn activity_tier(idle: int) -> u64 {
    if idle <= 3600 {
        110
    } else if idle <= 86400 {
        105
    } else if idle <= 604800 {
        100
    } else if idle <= 2592000 {
        95
    } else {
        85
    }
}

/// Multiplier (percent) for the giver's AI validation score.
pub open spec fn ai_tier(score: u32) -> u64 {
    if score > 800 {
        110
    } else if score > 500 {
        105
    } else {
        100
    }
}

/// The impact of an interaction before the cap: base times weight percent,
/// times the giver's multiplier and the time bonus, over the receiver's
/// resistance; every product saturates and every quotient truncates.
pub open spec fn raw_impact(
    from: ReputationProfile,
    to: ReputationProfile,
    interaction_type: u8,
    weight: u16,
    now: i64,
) -> u64 {
    let weighted = sat_mul(base_delta(interaction_type), weight as u64) / 100;
    let scaled = sat_mul(
        sat_mul(weighted, influence_tier(from.total_score)),
        activity_tier(elapsed(now, from.last_activity)),
    );
    scaled / resistance_tier(to.total_score)
}

/// The impact of an interaction, capped at 200.
pub open spec fn capped_impact(
    from: ReputationProfile,
    to: ReputationProfile,
    interaction_type: u8,
    weight: u16,
    now: i64,
) -> u64 {
    let raw = raw_impact(from, to, interaction_type, weight, now);
    if raw > 200 {
        200
    } else {
        raw
    }
}

/// The trust multiplier as applied: never below 1.
pub open spec fn effective_trust(p: ReputationProfile) -> u64 {
    if p.trust_multiplier < 1 {
        1
    } else {
        p.trust_multiplier
    }
}

/// The delta that an interaction posts: the capped impact, scaled by the
/// giver's AI multiplier and then by its trust multiplier (both in percent).
/// The cap comes before both multipliers, so the delta may exceed 200.
pub open spec fn interaction_delta(
    from: ReputationProfile,
    to: ReputationProfile,
    interaction_type: u8,
    weight: u16,
    now: i64,
) -> u64 {
    let capped = capped_impact(from, to, interaction_type, weight, now);
    let with_ai = (capped * ai_tier(from.ai_validation_score) / 100) as u64;
    sat_mul(with_ai, effective_trust(from)) / 100
}

/// Computes the capped impact of an interaction of the given type and weight
/// from `from_profile` to `to_profile` at time `now`.
pub fn calculate_interaction_impact(
    from_profile: &ReputationProfile,
    to_profile: &ReputationProfile,
    interaction_type: u8,
    weight: u16,
    now: i64,
) -> (r: Result<u64, ReputationError>)
    ensures
        interaction_type <= 9 ==> r == Ok::<u64, ReputationError>(
            capped_impact(*from_profile, *to_profile, interaction_type, weight, now),
        ),
        interaction_type > 9 ==> r == Err::<u64, ReputationError>(
            ReputationError::InvalidInteractionType,
        ),
{
    let base_delta: u64 = match interaction_type {
        0 => 10,
        1 => 5,
        2 => 15,
        3 => 25,
        4 => 50,
        5 => 30,
        6 => 40,
        7 => 75,
        8 => 60,
        9 => 20,
        _ => return Err(ReputationError::InvalidInteractionType),
    };
    let weighted_delta = saturating_mul(base_delta, weight as u64) / 100;
    let giver_multiplier = influence_multiplier(from_profile.total_score);
    let receiver_resistance = resistance_factor(to_profile.total_score);
    let time_bonus = activity_bonus(from_profile.last_activity, now);
    let mut final_delta = saturating_mul(
        saturating_mul(weighted_delta, giver_multiplier),
        time_bonus,
    ) / receiver_resistance;
    if final_delta > 200 {
        final_delta = 200;
    }
    Ok(final_delta)
}

/// The giver's multiplier for its total score.
pub fn influence_multiplier(reputation: u64) -> (r: u64)
    ensures
        r == influence_tier(reputation),
{
    if reputation <= 100 {
        80
    } else if reputation <= 500 {
        100
    } else if reputation <= 1000 {
        120
    } else if reputation <= 5000 {
        140
    } else {
        160
    }
}

/// The receiver's resistance for its total score.
pub fn resistance_factor(reputation: u64) -> (r: u64)
    ensures
        r == resistance_tier(reputation),
        r >= 80,
{
    if reputation <= 100 {
        80
    } else if reputation <= 500 {
        100
    } else if reputation <= 1000 {
        120
    } else if reputation <= 5000 {
        140
    } else {
        180
    }
}

/// The time bonus for a giver last active at `last_activity`, at time `now`.
pub fn activity_bonus(last_activity: i64, now: i64) -> (r: u64)
    ensures
        r == activity_tier(elapsed(now, last_activity)),
{
    let idle = elapsed_since(now, last_activity);
    if idle <= 3600 {
        110
    } else if idle <= 86400 {
        105
    } else if idle <= 604800 {
        100
    } else if idle <= 2592000 {
        95
    } else {
        85
    }
}

/// The AI multiplier for a giver's validation score.
pub fn ai_multiplier(score: u32) -> (r: u64)
    ensures
        r == ai_tier(score),
{
    if score > 800 {
        110
    } else if score > 500 {
        105
    } else {
        100
    }
}

/// Scales a capped impact by the giver's AI and trust multipliers.
pub fn apply_multipliers(capped: u64, from_profile: &ReputationProfile) -> (r: u64)
    requires
        capped <= 200,
    ensures
        r == sat_mul(
            (capped * ai_tier(from_profile.ai_validation_score) / 100) as u64,
            effective_trust(*from_profile),
        ) / 100,
{
    let ai = ai_multiplier(from_profile.ai_validation_score);
    assert(capped * ai <= 200 * 110) by (nonlinear_arith)
        requires
            capped <= 200,
            ai <= 110,
    ;
    let with_ai = capped * ai / 100;
    let trust = if from_profile.trust_multiplier < 1 {
        1
    } else {
        from_profile.trust_multiplier
    };
    saturating_mul(with_ai, trust) / 100
}

/// Whole days from `last` to `now`; zero when `now` is not after `last`.
pub open spec fn idle_days(now: i64, last: i64) -> int {
    let e = elapsed(now, last);
    if e <= 0 {
        0
    } else {
        e / 86400
    }
}

/// The amount that decay removes from a score `x`.
pub open spec fn decay_amount(x: u64, rate: u8, days: int) -> u64 {
    sat_mul(sat_mul(x, rate as u64), days as u64) / 3000
}

/// A score after decay: unchanged within seven idle days, else reduced by the
/// decay amount and floored at zero.
pub open spec fn decayed_score(x: u64, rate: u8, days: int) -> u64 {
    if days <= 7 {
        x
    } else {
        sat_sub(x, decay_amount(x, rate, days))
    }
}

/// `new` is `old` after decay at time `now`: the total and each category score
/// decay with the same rate and day count, and nothing else changes.
pub open spec fn is_decayed(old: ReputationProfile, new: ReputationProfile, now: i64) -> bool {
    let days = idle_days(now, old.last_activity);
    let rate = old.reputation_decay_rate;
    if days <= 7 {
        new == old
    } else {
        &&& new == (ReputationProfile {
            total_score: decayed_score(old.total_score, rate, days),
            category_scores: new.category_scores,
            ..old
        })
        &&& forall|i: int|
            0 <= i < 5 ==> #[trigger] new.category_scores[i] == decayed_score(
                old.category_scores[i],
                rate,
                days,
            )
    }
}

fn decay_one(x: u64, rate: u8, days: u64) -> (r: u64)
    requires
        days > 7,
    ensures
        r == decayed_score(x, rate, days as int),
{
    let amount = saturating_mul(saturating_mul(x, rate as u64), days) / 3000;
    x.saturating_sub(amount)
}

/// Erodes the scores of a profile idle for more than seven days at `now`.
pub fn calculate_reputation_decay(profile: &mut ReputationProfile, now: i64) -> (r: Result<
    (),
    ReputationError,
>)
    ensures
        r is Ok,
        is_decayed(*old(profile), *final(profile), now),
{
    let idle = elapsed_since(now, profile.last_activity);
    let days: i64 = if idle <= 0 {
        0
    } else {
        idle / 86400
    };
    if days > 7 {
        let rate = profile.reputation_decay_rate;
        let ghost before = *profile;
        profile.total_score = decay_one(profile.total_score, rate, days as u64);
        let mut i: usize = 0;
        while i < 5
            invariant
                0 <= i <= 5,
                days > 7,
                days == idle_days(now, before.last_activity),
                rate == before.reputation_decay_rate,
                *profile == (ReputationProfile {
                    total_score: decayed_score(before.total_score, rate, days as int),
                    category_scores: profile.category_scores,
                    ..before
                }),
                forall|j: int|
                    0 <= j < i ==> #[trigger] profile.category_scores[j] == decayed_score(
                        before.category_scores[j],
                        rate,
                        days as int,
                    ),
                forall|j: int|
                    i <= j < 5 ==> #[trigger] profile.category_scores[j]
                        == before.category_scores[j],
            decreases 5 - i,
        {
            profile.category_scores[i] = decay_one(profile.category_scores[i], rate, days as u64);
            i = i + 1;
        }
    }
    Ok(())
}

} // verus!
