//! Properties that hold across calls of the engine's operations.
use vstd::prelude::*;
use crate::errors::ReputationError;
use crate::instructions::claim_badge::{
    claim_failure,
    claim_outcome,
    claim_slot,
    lemma_claim_slot_in_range,
    ClaimBadge,
};
use crate::instructions::delegate_reputation::{
    delegation_outcome,
    delegation_power,
    DelegateReputation,
};
use crate::instructions::record_interaction::{
    interaction_outcome,
    InteractionRecorded,
    RecordInteraction,
};
use crate::state::reputation_profile::ReputationProfile;
use crate::utils::reputation_math::{decay_amount, idle_days, is_decayed, sat_add, sat_sub};

verus! {

/// Decay never raises a score and never takes one below zero: past seven idle
/// days each score drops by its decay amount, or to zero when the amount is
/// larger.
pub proof fn decay_never_underflows(old: ReputationProfile, new: ReputationProfile, now: i64)
    requires
        is_decayed(old, new, now),
    ensures
        new.total_score <= old.total_score,
        forall|i: int| 0 <= i < 5 ==> #[trigger] new.category_scores[i] <= old.category_scores[i],
        idle_days(now, old.last_activity) > 7 ==> new.total_score == sat_sub(
            old.total_score,
            decay_amount(old.total_score, old.reputation_decay_rate, idle_days(now, old.last_activity)),
        ),
{
}

/// Decay is idempotent within its window: once a profile has been decayed,
/// decaying it again at a time at most seven idle days after its last
/// activity changes nothing.
pub proof fn decay_idempotent_within_window(
    p: ReputationProfile,
    once: ReputationProfile,
    twice: ReputationProfile,
    first: i64,
    second: i64,
)
    requires
        is_decayed(p, once, first),
        is_decayed(once, twice, second),
        idle_days(second, p.last_activity) <= 7,
    ensures
        twice == once,
{
}

/// A badge kind is claimed at most once: after an accepted claim, claiming
/// the same code again is refused as already claimed and changes nothing, so
/// there is no second receipt and no second bonus.
pub proof fn badge_claimed_once(
    start: ClaimBadge,
    after_first: ClaimBadge,
    after_second: ClaimBadge,
    code: u8,
    first_proof: [u8; 32],
    second_proof: [u8; 32],
    first_time: i64,
    second_time: i64,
    second: Result<(), ReputationError>,
)
    requires
        claim_outcome(start, after_first, code, first_proof, first_time, Ok(())),
        claim_outcome(after_first, after_second, code, second_proof, second_time, second),
    ensures
        second == Err::<(), ReputationError>(ReputationError::BadgeAlreadyClaimed),
        after_second == after_first,
{
    lemma_claim_slot_in_range(start.profile.badges@, 0);
    let s = claim_slot(start.profile);
    assert(after_first.profile.badges[s].badge_type == crate::state::badge_system::badge_of_code(
        code,
    ));
    assert(claim_failure(after_first.profile, code) == Some(ReputationError::BadgeAlreadyClaimed));
}

/// A second delegation from the same delegator to the same delegatee credits
/// the delegatee only with the increase in power over the first: the
/// delegated power is overwritten, not added to.
pub proof fn delegation_credits_only_increase(
    start: DelegateReputation,
    after_first: DelegateReputation,
    after_second: DelegateReputation,
    target: Seq<u8>,
    first_percent: u8,
    second_percent: u8,
)
    requires
        delegation_outcome(start, after_first, target, first_percent, Ok(())),
        delegation_outcome(after_first, after_second, target, second_percent, Ok(())),
    ensures
        after_second.delegator_profile.delegated_power == delegation_power(
            start.delegator_profile.total_score,
            second_percent,
        ),
        after_second.delegatee_profile.delegation_received == sat_add(
            after_first.delegatee_profile.delegation_received,
            sat_sub(
                delegation_power(start.delegator_profile.total_score, second_percent),
                delegation_power(start.delegator_profile.total_score, first_percent),
            ),
        ),
{
}

/// Repeating a delegation of the same percentage to the same delegatee is
/// accepted and changes nothing: nothing is counted twice.
pub proof fn repeated_delegation_not_double_counted(
    start: DelegateReputation,
    after_first: DelegateReputation,
    after_second: DelegateReputation,
    target: Seq<u8>,
    percent: u8,
    second: Result<(), ReputationError>,
)
    requires
        delegation_outcome(start, after_first, target, percent, Ok(())),
        delegation_outcome(after_first, after_second, target, percent, second),
    ensures
        second is Ok,
        after_second == after_first,
{
}

/// An interaction with a type above 9 or a weight outside `1..=1000` is
/// rejected, and no record changes.
pub proof fn invalid_interaction_rejected(
    old: RecordInteraction,
    new: RecordInteraction,
    t: u8,
    weight: u16,
    metadata: Seq<u8>,
    now: i64,
    r: Result<InteractionRecorded, ReputationError>,
)
    requires
        interaction_outcome(old, new, t, weight, metadata, now, r),
        t > 9 || weight == 0 || weight > 1000,
    ensures
        r is Err,
        new == old,
{
}

/// An interaction of a profile with itself is always rejected, whatever the
/// scores and cooldowns, and no record changes.
pub proof fn self_interaction_rejected(
    old: RecordInteraction,
    new: RecordInteraction,
    t: u8,
    weight: u16,
    metadata: Seq<u8>,
    now: i64,
    r: Result<InteractionRecorded, ReputationError>,
)
    requires
        interaction_outcome(old, new, t, weight, metadata, now, r),
        old.from_profile.wallet@ == old.to_profile.wallet@,
    ensures
        r is Err,
        new == old,
{
}

} // verus!
