use vstd::prelude::*;
use crate::state::account_key::AccountKey;
use crate::state::badge_system::Badge;

verus! {

/// The five score categories, in the order of `category_scores`.
#[derive(Clone, Copy, PartialEq, Eq, Structural, Debug)]
pub enum Category {
    Development,
    Governance,
    Community,
    Innovation,
    Security,
}

/// The slot of `category_scores` that holds category `c`.
pub open spec fn category_slot(c: Category) -> int {
    match c {
        Category::Development => 0,
        Category::Governance => 1,
        Category::Community => 2,
        Category::Innovation => 3,
        Category::Security => 4,
    }
}

impl Category {
    /// The slot of `category_scores` that holds this category.
    pub fn index(&self) -> (r: usize)
        ensures
            r == category_slot(*self),
            r < 5,
    {
        match self {
            Category::Development => 0,
            Category::Governance => 1,
            Category::Community => 2,
            Category::Innovation => 3,
            Category::Security => 4,
        }
    }
}

/// A participant's persistent reputation record.
///
/// `category_scores` is mutated independently of `total_score`: the two are
/// not kept in step, and the sum of the categories need not equal the total.
#[derive(Clone, Copy, Debug)]
pub struct ReputationProfile {
    pub wallet: AccountKey,
    pub total_score: u64,
    pub category_scores: [u64; 5],
    pub interaction_count: u32,
    pub badges: [Badge; 10],
    pub trust_multiplier: u64,
    pub last_activity: i64,
    pub reputation_decay_rate: u8,
    pub delegated_power: u64,
    pub delegation_received: u64,
    pub realm_memberships: [AccountKey; 5],
    pub ai_validation_score: u32,
    pub cross_dao_reputation: u64,
}

/// Whether the profile lists `realm` among its memberships.
pub open spec fn is_member(p: ReputationProfile, realm: Seq<u8>) -> bool {
    exists|i: int| 0 <= i < 5 && #[trigger] p.realm_memberships[i]@ == realm
}

impl ReputationProfile {
    /// Whether the profile lists `realm` among its memberships.
    pub fn is_member_of(&self, realm: &AccountKey) -> (r: bool)
        ensures
            r == is_member(*self, realm@),
    {
        let mut i: usize = 0;
        while i < 5
            invariant
                0 <= i <= 5,
                forall|j: int| 0 <= j < i ==> self.realm_memberships[j]@ != realm@,
            decreases 5 - i,
        {
            if self.realm_memberships[i].same_as(realm) {
                return true;
            }
            i = i + 1;
        }
        false
    }
}

} // verus!
