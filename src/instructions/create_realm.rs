use vstd::prelude::*;
use vstd::string::StringSliceAdditionalSpecFns;
use crate::errors::ReputationError;
use crate::state::account_key::{zero_key, AccountKey};
use crate::state::governance_realm::{GovernanceRealm, ReputationAlgorithm};

verus! {

/// The records a realm creation touches: the realm to fill, its own key and
/// the creating admin's key.
#[derive(Clone, Copy, Debug)]
pub struct CreateRealm {
    pub realm: GovernanceRealm,
    pub realm_key: AccountKey,
    pub admin: AccountKey,
}

/// Sum of the five category weights.
pub open spec fn weight_sum(w: [u16; 5]) -> int {
    w[0] + w[1] + w[2] + w[3] + w[4]
}

/// The first reason, if any, to reject a realm with a name of `name_len`
/// bytes and the given weights.
pub open spec fn realm_failure(name_len: nat, weights: [u16; 5]) -> Option<ReputationError> {
    if name_len > 32 {
        Some(ReputationError::RealmNameTooLong)
    } else if weight_sum(weights) == 0 {
        Some(ReputationError::InvalidAlgorithmWeights)
    } else {
        None
    }
}

/// `realm` is a new realm with the given key, name, creator, weights and
/// creation time, and every other parameter at its default.
pub open spec fn is_new_realm(
    realm: GovernanceRealm,
    key: AccountKey,
    name: Seq<u8>,
    admin: AccountKey,
    weights: [u16; 5],
    now: i64,
) -> bool {
    &&& realm == (GovernanceRealm {
        realm_id: key,
        name: realm.name,
        admin_wallets: realm.admin_wallets,
        reputation_algorithm: ReputationAlgorithm {
            development_weight: weights[0],
            governance_weight: weights[1],
            community_weight: weights[2],
            innovation_weight: weights[3],
            security_weight: weights[4],
            decay_factor: 2,
            ai_enhancement: true,
            cross_realm_factor: 10,
        },
        total_members: 0,
        active_proposals: 0,
        treasury_balance: 0,
        governance_token: None,
        min_reputation_threshold: 50,
        voting_period_seconds: 259200,
        cross_realm_enabled: true,
        ai_moderation_enabled: false,
        created_at: now,
    })
    &&& realm.name@ == name + Seq::new((32 - name.len()) as nat, |i: int| 0u8)
    &&& realm.admin_wallets[0] == admin
    &&& realm.admin_wallets[1]@ == zero_key()
    &&& realm.admin_wallets[2]@ == zero_key()
}

/// The outcome of a realm creation: accepted with the new realm in `new`, or
/// rejected with the first failing check and nothing changed.
pub open spec fn realm_outcome(
    old: CreateRealm,
    new: CreateRealm,
    name: Seq<u8>,
    weights: [u16; 5],
    now: i64,
    r: Result<(), ReputationError>,
) -> bool {
    match r {
        Ok(()) => {
            &&& realm_failure(name.len(), weights) is None
            &&& is_new_realm(new.realm, old.realm_key, name, old.admin, weights, now)
            &&& new.realm_key == old.realm_key
            &&& new.admin == old.admin
        },
        Err(e) => realm_failure(name.len(), weights) == Some(e) && new == old,
    }
}

/// Creates a realm named `realm_name` with the given category weights at
/// time `now`; the creator becomes its sole admin.
pub fn handler(ctx: &mut CreateRealm, realm_name: &str, algorithm_weights: [u16; 5], now: i64) -> (r:
    Result<(), ReputationError>)
    ensures
        realm_outcome(*old(ctx), *final(ctx), realm_name.spec_bytes(), algorithm_weights, now, r),
{
    let name_bytes = realm_name.as_bytes();
    if name_bytes.len() > 32 {
        return Err(ReputationError::RealmNameTooLong);
    }
    let total_weight: u64 = algorithm_weights[0] as u64 + algorithm_weights[1] as u64
        + algorithm_weights[2] as u64 + algorithm_weights[3] as u64
        + algorithm_weights[4] as u64;
    if total_weight == 0 {
        return Err(ReputationError::InvalidAlgorithmWeights);
    }
    let mut name_buf = [0u8; 32];
    let mut i: usize = 0;
    while i < name_bytes.len()
        invariant
            name_bytes@ == realm_name.spec_bytes(),
            name_bytes@.len() <= 32,
            0 <= i <= name_bytes@.len(),
            forall|j: int| 0 <= j < i ==> name_buf@[j] == name_bytes@[j],
            forall|j: int| i <= j < 32 ==> name_buf@[j] == 0,
        decreases name_bytes@.len() - i,
    {
        name_buf[i] = name_bytes[i];
        i = i + 1;
    }
    assert(name_buf@ =~= name_bytes@ + Seq::new((32 - name_bytes@.len()) as nat, |i: int| 0u8));
    ctx.realm = GovernanceRealm {
        realm_id: ctx.realm_key,
        name: name_buf,
        admin_wallets: [ctx.admin, AccountKey::zero(), AccountKey::zero()],
        reputation_algorithm: ReputationAlgorithm {
            development_weight: algorithm_weights[0],
            governance_weight: algorithm_weights[1],
            community_weight: algorithm_weights[2],
            innovation_weight: algorithm_weights[3],
            security_weight: algorithm_weights[4],
            decay_factor: 2,
            ai_enhancement: true,
            cross_realm_factor: 10,
        },
        total_members: 0,
        active_proposals: 0,
        treasury_balance: 0,
        governance_token: None,
        min_reputation_threshold: 50,
        voting_period_seconds: 3 * 24 * 3600,
        cross_realm_enabled: true,
        ai_moderation_enabled: false,
        created_at: now,
    };
    Ok(())
}

} // verus!
