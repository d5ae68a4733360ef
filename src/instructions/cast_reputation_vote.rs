use vstd::prelude::*;
use vstd::string::StringSliceAdditionalSpecFns;
use crate::errors::ReputationError;
use crate::state::account_key::AccountKey;
use crate::state::governance_realm::GovernanceRealm;
use crate::state::reputation_profile::ReputationProfile;
use crate::utils::reputation_math::sat_add;

verus! {

/// The records a vote touches: the voter's profile, the realm and the voter's key.
#[derive(Clone, Copy, Debug)]
pub struct CastReputationVote {
    pub voter_profile: ReputationProfile,
    pub realm: GovernanceRealm,
    pub voter: AccountKey,
}

/// The score a vote of type `v` earns: 5 for a plain vote, 15 for types 1 and 2.
pub open spec fn vote_increment(v: u8) -> u64 {
    if v == 0 {
        5
    } else {
        15
    }
}

/// The first reason, if any, to reject a vote: the justification's length,
/// the voter's standing (the realm's threshold, at most 100), the vote type.
pub open spec fn vote_failure(ctx: CastReputationVote, v: u8, justification_len: nat) -> Option<
    ReputationError,
> {
    let bar = if ctx.realm.min_reputation_threshold < 100 {
        ctx.realm.min_reputation_threshold
    } else {
        100
    };
    if justification_len > 280 {
        Some(ReputationError::MetadataTooLong)
    } else if ctx.voter_profile.total_score < bar {
        Some(ReputationError::InsufficientReputation)
    } else if v > 2 {
        Some(ReputationError::InvalidActionType)
    } else {
        None
    }
}

/// `new` is `old` after an accepted vote of type `v`: the voter's total and
/// governance category grow by the increment, nothing else changes.
pub open spec fn is_voted(old: CastReputationVote, new: CastReputationVote, v: u8) -> bool {
    let p = old.voter_profile;
    let inc = vote_increment(v);
    &&& new == (CastReputationVote {
        voter_profile: ReputationProfile {
            total_score: sat_add(p.total_score, inc),
            category_scores: new.voter_profile.category_scores,
            ..p
        },
        ..old
    })
    &&& new.voter_profile.category_scores@ == p.category_scores@.update(
        1,
        sat_add(p.category_scores[1], inc),
    )
}

/// The outcome of a vote: accepted with `new` as `old` after it, or rejected
/// with the first failing check and nothing changed.
pub open spec fn vote_outcome(
    old: CastReputationVote,
    new: CastReputationVote,
    v: u8,
    justification: Seq<u8>,
    r: Result<(), ReputationError>,
) -> bool {
    match r {
        Ok(()) => vote_failure(old, v, justification.len()) is None && is_voted(old, new, v),
        Err(e) => vote_failure(old, v, justification.len()) == Some(e) && new == old,
    }
}

/// Applies the score impact of casting a governance vote.
pub fn handler(ctx: &mut CastReputationVote, vote_type: u8, justification: &str) -> (r: Result<
    (),
    ReputationError,
>)
    ensures
        vote_outcome(*old(ctx), *final(ctx), vote_type, justification.spec_bytes(), r),
{
    if justification.as_bytes().len() > 280 {
        return Err(ReputationError::MetadataTooLong);
    }
    let threshold = ctx.realm.min_reputation_threshold;
    let bar: u64 = if threshold < 100 {
        threshold
    } else {
        100
    };
    if ctx.voter_profile.total_score < bar {
        return Err(ReputationError::InsufficientReputation);
    }
    let increment: u64 = match vote_type {
        0 => 5,
        1 | 2 => 15,
        _ => return Err(ReputationError::InvalidActionType),
    };
    ctx.voter_profile.total_score = ctx.voter_profile.total_score.saturating_add(increment);
    ctx.voter_profile.category_scores[1] = ctx.voter_profile.category_scores[1].saturating_add(
        increment,
    );
    Ok(())
}

} // verus!
