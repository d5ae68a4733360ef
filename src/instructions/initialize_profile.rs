use vstd::prelude::*;
use crate::errors::ReputationError;
use crate::state::account_key::{zero_key, AccountKey};
use crate::state::badge_system::{Badge, BadgeType};
use crate::state::reputation_profile::ReputationProfile;
use crate::utils::constants::{DEFAULT_AI_VALIDATION_SCORE, DEFAULT_DECAY_RATE, DEFAULT_TRUST_MULTIPLIER};

verus! {

/// The records a profile creation touches: the profile to fill and its owner's key.
#[derive(Clone, Copy, Debug)]
pub struct InitializeProfile {
    pub profile: ReputationProfile,
    pub user: AccountKey,
}

/// `p` is a new profile of `owner`: zero scores and counters, empty badge
/// slots with every field zero, empty memberships, default trust, decay rate
/// and AI score, and no recorded activity (so a first interaction may come at
/// once).
pub open spec fn is_fresh_profile(p: ReputationProfile, owner: AccountKey) -> bool {
    &&& p.wallet == owner
    &&& p.total_score == 0
    &&& forall|i: int| 0 <= i < 5 ==> #[trigger] p.category_scores[i] == 0
    &&& p.interaction_count == 0
    &&& forall|i: int|
        0 <= i < 10 ==> (#[trigger] p.badges[i]).badge_type == BadgeType::NoBadge
            && p.badges[i].earned_at == 0 && p.badges[i].issuer_realm@ == zero_key()
            && p.badges[i].metadata_hash@ == Seq::new(32, |j: int| 0u8)
    &&& p.trust_multiplier == 100
    &&& p.last_activity == 0
    &&& p.reputation_decay_rate == 2
    &&& p.delegated_power == 0
    &&& p.delegation_received == 0
    &&& forall|i: int| 0 <= i < 5 ==> (#[trigger] p.realm_memberships[i])@ == zero_key()
    &&& p.ai_validation_score == 500
    &&& p.cross_dao_reputation == 0
}

/// A new profile for `owner`.
pub fn new_profile(owner: AccountKey) -> (r: ReputationProfile)
    ensures
        is_fresh_profile(r, owner),
{
    let empty = Badge::empty();
    let none = AccountKey::zero();
    ReputationProfile {
        wallet: owner,
        total_score: 0,
        category_scores: [0u64; 5],
        interaction_count: 0,
        badges: [empty; 10],
        trust_multiplier: DEFAULT_TRUST_MULTIPLIER,
        last_activity: 0,
        reputation_decay_rate: DEFAULT_DECAY_RATE,
        delegated_power: 0,
        delegation_received: 0,
        realm_memberships: [none; 5],
        ai_validation_score: DEFAULT_AI_VALIDATION_SCORE,
        cross_dao_reputation: 0,
    }
}

/// Fills the profile record with a new profile of the signing user.
pub fn handler(ctx: &mut InitializeProfile) -> (r: Result<(), ReputationError>)
    ensures
        r is Ok,
        final(ctx).user == old(ctx).user,
        is_fresh_profile(final(ctx).profile, old(ctx).user),
{
    ctx.profile = new_profile(ctx.user);
    Ok(())
}

} // verus!
