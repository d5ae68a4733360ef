use vstd::prelude::*;
use crate::errors::ReputationError;
use crate::state::account_key::AccountKey;
use crate::state::governance_realm::GovernanceRealm;
use crate::state::reputation_profile::ReputationProfile;
use crate::utils::reputation_math::sat_add;

verus! {

/// The records a bridge touches: the profile, the realm whose factor applies,
/// and the user's key.
#[derive(Clone, Copy, Debug)]
pub struct BridgeReputation {
    pub profile: ReputationProfile,
    pub realm: GovernanceRealm,
    pub user: AccountKey,
}

/// The first reason, if any, to reject a bridge.
pub open spec fn bridge_failure(ctx: BridgeReputation, bridge_weight: u8) -> Option<ReputationError> {
    if !ctx.realm.cross_realm_enabled {
        Some(ReputationError::CrossRealmDisabled)
    } else if bridge_weight == 0 {
        Some(ReputationError::BridgeOperationFailed)
    } else {
        None
    }
}

/// The records after an accepted bridge: the profile's cross-realm reputation
/// grows by weight times the realm's factor, its total by half of that.
pub open spec fn bridged(ctx: BridgeReputation, bridge_weight: u8) -> BridgeReputation {
    let add = (bridge_weight * ctx.realm.reputation_algorithm.cross_realm_factor) as u64;
    BridgeReputation {
        profile: ReputationProfile {
            cross_dao_reputation: sat_add(ctx.profile.cross_dao_reputation, add),
            total_score: sat_add(ctx.profile.total_score, add / 2),
            ..ctx.profile
        },
        ..ctx
    }
}

/// The outcome of a bridge: accepted with `new` the bridged records, or
/// rejected with the first failing check and nothing changed.
pub open spec fn bridge_outcome(
    old: BridgeReputation,
    new: BridgeReputation,
    bridge_weight: u8,
    r: Result<(), ReputationError>,
) -> bool {
    match r {
        Ok(()) => bridge_failure(old, bridge_weight) is None && new == bridged(old, bridge_weight),
        Err(e) => bridge_failure(old, bridge_weight) == Some(e) && new == old,
    }
}

/// Imports reputation weight from another realm. The source realm is taken on
/// trust: it is neither looked up nor checked.
pub fn handler(ctx: &mut BridgeReputation, _source_realm: AccountKey, bridge_weight: u8) -> (r:
    Result<(), ReputationError>)
    ensures
        bridge_outcome(*old(ctx), *final(ctx), bridge_weight, r),
{
    if !ctx.realm.cross_realm_enabled {
        return Err(ReputationError::CrossRealmDisabled);
    }
    if bridge_weight == 0 {
        return Err(ReputationError::BridgeOperationFailed);
    }
    let factor = ctx.realm.reputation_algorithm.cross_realm_factor as u64;
    assert(bridge_weight * factor <= 255 * 255) by (nonlinear_arith)
        requires
            bridge_weight <= 255,
            factor <= 255,
    ;
    let add = (bridge_weight as u64) * factor;
    ctx.profile.cross_dao_reputation = ctx.profile.cross_dao_reputation.saturating_add(add);
    ctx.profile.total_score = ctx.profile.total_score.saturating_add(add / 2);
    Ok(())
}

} // verus!
