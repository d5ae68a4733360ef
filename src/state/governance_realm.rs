use vstd::prelude::*;
use crate::state::account_key::AccountKey;

verus! {

/// The parameter block of a realm's scoring algorithm.
#[derive(Clone, Copy, PartialEq, Eq, Structural, Debug)]
pub struct ReputationAlgorithm {
    pub development_weight: u16,
    pub governance_weight: u16,
    pub community_weight: u16,
    pub innovation_weight: u16,
    pub security_weight: u16,
    pub decay_factor: u8,
    pub ai_enhancement: bool,
    pub cross_realm_factor: u8,
}

/// A governance community with its own weights, admins and thresholds.
#[derive(Clone, Copy, Debug)]
pub struct GovernanceRealm {
    pub realm_id: AccountKey,
    pub name: [u8; 32],
    pub admin_wallets: [AccountKey; 3],
    pub reputation_algorithm: ReputationAlgorithm,
    pub total_members: u32,
    pub active_proposals: u16,
    pub treasury_balance: u64,
    pub governance_token: Option<AccountKey>,
    pub min_reputation_threshold: u64,
    pub voting_period_seconds: u32,
    pub cross_realm_enabled: bool,
    pub ai_moderation_enabled: bool,
    pub created_at: i64,
}

/// Whether `key` is one of the realm's admins.
pub open spec fn is_admin(realm: GovernanceRealm, key: Seq<u8>) -> bool {
    exists|i: int| 0 <= i < 3 && #[trigger] realm.admin_wallets[i]@ == key
}

impl GovernanceRealm {
    /// Whether `key` is one of the realm's admins.
    pub fn has_admin(&self, key: &AccountKey) -> (r: bool)
        ensures
            r == is_admin(*self, key@),
    {
        let mut i: usize = 0;
        while i < 3
            invariant
                0 <= i <= 3,
                forall|j: int| 0 <= j < i ==> self.admin_wallets[j]@ != key@,
            decreases 3 - i,
        {
            if self.admin_wallets[i].same_as(key) {
                return true;
            }
            i = i + 1;
        }
        false
    }
}

} // verus!
