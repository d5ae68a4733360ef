use vstd::prelude::*;
use crate::state::account_key::{zero_key, AccountKey};

verus! {

/// The kinds of badge a profile can hold; `NoBadge` marks an empty slot.
#[derive(Clone, Copy, PartialEq, Eq, Structural, Debug)]
pub enum BadgeType {
    NoBadge,
    Developer,
    GovernanceParticipant,
    CommunityBuilder,
    SecurityAuditor,
    Innovation,
    Mentor,
    EarlyAdopter,
    CrossChainBridge,
    AIValidator,
    Custom,
}

/// The badge kind that a code in `0..=10` stands for.
pub open spec fn badge_of_code(v: u8) -> BadgeType {
    if v == 0 {
        BadgeType::NoBadge
    } else if v == 1 {
        BadgeType::Developer
    } else if v == 2 {
        BadgeType::GovernanceParticipant
    } else if v == 3 {
        BadgeType::CommunityBuilder
    } else if v == 4 {
        BadgeType::SecurityAuditor
    } else if v == 5 {
        BadgeType::Innovation
    } else if v == 6 {
        BadgeType::Mentor
    } else if v == 7 {
        BadgeType::EarlyAdopter
    } else if v == 8 {
        BadgeType::CrossChainBridge
    } else if v == 9 {
        BadgeType::AIValidator
    } else {
        BadgeType::Custom
    }
}

impl Default for BadgeType {
    fn default() -> (r: BadgeType)
        ensures
            r == BadgeType::NoBadge,
    {
        BadgeType::NoBadge
    }
}

impl BadgeType {
    /// Decodes a badge code: `0..=10` name the eleven kinds, anything else is refused.
    pub fn try_from(v: u8) -> (r: Result<BadgeType, ()>)
        ensures
            v <= 10 ==> r == Ok::<BadgeType, ()>(badge_of_code(v)),
            v > 10 ==> r is Err,
    {
        match v {
            0 => Ok(BadgeType::NoBadge),
            1 => Ok(BadgeType::Developer),
            2 => Ok(BadgeType::GovernanceParticipant),
            3 => Ok(BadgeType::CommunityBuilder),
            4 => Ok(BadgeType::SecurityAuditor),
            5 => Ok(BadgeType::Innovation),
            6 => Ok(BadgeType::Mentor),
            7 => Ok(BadgeType::EarlyAdopter),
            8 => Ok(BadgeType::CrossChainBridge),
            9 => Ok(BadgeType::AIValidator),
            10 => Ok(BadgeType::Custom),
            _ => Err(()),
        }
    }
}

/// A badge held in one of a profile's slots.
#[derive(Clone, Copy, Debug)]
pub struct Badge {
    pub badge_type: BadgeType,
    pub earned_at: i64,
    pub issuer_realm: AccountKey,
    pub metadata_hash: [u8; 32],
}

impl Badge {
    /// An empty slot.
    pub fn empty() -> (r: Badge)
        ensures
            r.badge_type == BadgeType::NoBadge,
            r.earned_at == 0,
            r.issuer_realm@ == zero_key(),
            r.metadata_hash@ == Seq::new(32, |j: int| 0u8),
    {
        let r = Badge {
            badge_type: BadgeType::NoBadge,
            earned_at: 0,
            issuer_realm: AccountKey::zero(),
            metadata_hash: [0u8; 32],
        };
        assert(r.metadata_hash@ =~= Seq::new(32, |j: int| 0u8));
        r
    }
}

/// The immutable proof record written once for each badge claim.
#[derive(Clone, Copy, Debug)]
pub struct BadgeReceipt {
    pub owner: AccountKey,
    pub badge_type: u8,
    pub proof_hash: [u8; 32],
    pub earned_at: i64,
}

} // verus!
