use vstd::prelude::*;
use crate::errors::ReputationError;
use crate::state::account_key::AccountKey;
use crate::state::governance_realm::{is_admin, GovernanceRealm, ReputationAlgorithm};

verus! {

/// The records an algorithm update touches: the realm and the signer's key.
#[derive(Clone, Copy, Debug)]
pub struct UpdateAlgorithm {
    pub realm: GovernanceRealm,
    pub admin: AccountKey,
}

/// The parameter block that an update writes. The weights are not checked:
/// unlike creation, an update may leave them all zero.
pub open spec fn algorithm_of(
    weights: [u16; 5],
    decay_factor: u8,
    ai_enhancement: bool,
    cross_realm_factor: u8,
) -> ReputationAlgorithm {
    ReputationAlgorithm {
        development_weight: weights[0],
        governance_weight: weights[1],
        community_weight: weights[2],
        innovation_weight: weights[3],
        security_weight: weights[4],
        decay_factor,
        ai_enhancement,
        cross_realm_factor,
    }
}

/// The outcome of an algorithm update: a listed admin overwrites the
/// parameter block; anyone else is refused and nothing changes.
pub open spec fn update_outcome(
    old: UpdateAlgorithm,
    new: UpdateAlgorithm,
    algorithm: ReputationAlgorithm,
    r: Result<(), ReputationError>,
) -> bool {
    if is_admin(old.realm, old.admin@) {
        r is Ok && new == (UpdateAlgorithm {
            realm: GovernanceRealm { reputation_algorithm: algorithm, ..old.realm },
            ..old
        })
    } else {
        r == Err::<(), ReputationError>(ReputationError::AdminRequired) && new == old
    }
}

/// Overwrites the realm's algorithm parameters; only a listed admin may.
pub fn handler(
    ctx: &mut UpdateAlgorithm,
    algorithm_weights: [u16; 5],
    decay_factor: u8,
    ai_enhancement: bool,
    cross_realm_factor: u8,
) -> (r: Result<(), ReputationError>)
    ensures
        update_outcome(
            *old(ctx),
            *final(ctx),
            algorithm_of(algorithm_weights, decay_factor, ai_enhancement, cross_realm_factor),
            r,
        ),
{
    if !ctx.realm.has_admin(&ctx.admin) {
        return Err(ReputationError::AdminRequired);
    }
    ctx.realm.reputation_algorithm = ReputationAlgorithm {
        development_weight: algorithm_weights[0],
        governance_weight: algorithm_weights[1],
        community_weight: algorithm_weights[2],
        innovation_weight: algorithm_weights[3],
        security_weight: algorithm_weights[4],
        decay_factor,
        ai_enhancement,
        cross_realm_factor,
    };
    Ok(())
}

} // verus!
