use vstd::prelude::*;
use crate::errors::ReputationError;
use crate::state::account_key::AccountKey;
use crate::state::reputation_profile::ReputationProfile;
use crate::utils::reputation_math::{sat_add, sat_sub};

verus! {

/// The records a delegation touches: both profiles and the delegator's key.
#[derive(Clone, Copy, Debug)]
pub struct DelegateReputation {
    pub delegator_profile: ReputationProfile,
    pub delegatee_profile: ReputationProfile,
    pub delegator: AccountKey,
}

/// The first reason, if any, to reject a delegation to `target`.
pub open spec fn delegation_failure(ctx: DelegateReputation, target: Seq<u8>, percent: u8) -> Option<
    ReputationError,
> {
    if percent == 0 || percent > 100 {
        Some(ReputationError::DelegationTooHigh)
    } else if ctx.delegator_profile.wallet@ == target {
        Some(ReputationError::SelfDelegationForbidden)
    } else if ctx.delegatee_profile.wallet@ != target {
        Some(ReputationError::ProfileNotInitialized)
    } else {
        None
    }
}

/// The power that delegating `percent` of `score` hands over.
pub open spec fn delegation_power(score: u64, percent: u8) -> u64 {
    (score * percent / 100) as u64
}

/// The records after an accepted delegation: the delegator's delegated power
/// is overwritten, and the delegatee is credited only with its increase.
pub open spec fn delegated(ctx: DelegateReputation, percent: u8) -> DelegateReputation {
    let power = delegation_power(ctx.delegator_profile.total_score, percent);
    let prev = ctx.delegator_profile.delegated_power;
    DelegateReputation {
        delegator_profile: ReputationProfile { delegated_power: power, ..ctx.delegator_profile },
        delegatee_profile: ReputationProfile {
            delegation_received: sat_add(
                ctx.delegatee_profile.delegation_received,
                sat_sub(power, prev),
            ),
            ..ctx.delegatee_profile
        },
        ..ctx
    }
}

/// The outcome of a delegation: accepted with `new` the delegated records,
/// or rejected with the first failing check and nothing changed.
pub open spec fn delegation_outcome(
    old: DelegateReputation,
    new: DelegateReputation,
    target: Seq<u8>,
    percent: u8,
    r: Result<(), ReputationError>,
) -> bool {
    match r {
        Ok(()) => delegation_failure(old, target, percent) is None && new == delegated(old, percent),
        Err(e) => delegation_failure(old, target, percent) == Some(e) && new == old,
    }
}

/// Delegates `weight_percentage` percent of the delegator's total score to
/// the profile of `delegate_to`.
pub fn handler(ctx: &mut DelegateReputation, delegate_to: AccountKey, weight_percentage: u8) -> (r:
    Result<(), ReputationError>)
    ensures
        delegation_outcome(*old(ctx), *final(ctx), delegate_to@, weight_percentage, r),
{
    if !(weight_percentage > 0 && weight_percentage <= 100) {
        return Err(ReputationError::DelegationTooHigh);
    }
    if ctx.delegator_profile.wallet.same_as(&delegate_to) {
        return Err(ReputationError::SelfDelegationForbidden);
    }
    if !ctx.delegatee_profile.wallet.same_as(&delegate_to) {
        return Err(ReputationError::ProfileNotInitialized);
    }
    let score = ctx.delegator_profile.total_score;
    assert(score * weight_percentage <= score * 100) by (nonlinear_arith)
        requires
            weight_percentage <= 100,
    ;
    let power = ((score as u128) * (weight_percentage as u128) / 100) as u64;
    let prev = ctx.delegator_profile.delegated_power;
    ctx.delegator_profile.delegated_power = power;
    ctx.delegatee_profile.delegation_received = ctx.delegatee_profile.delegation_received.saturating_add(
        power.saturating_sub(prev),
    );
    Ok(())
}

} // verus!
