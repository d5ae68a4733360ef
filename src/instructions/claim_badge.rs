use vstd::prelude::*;
use crate::errors::ReputationError;
use crate::state::account_key::{zero_key, AccountKey};
use crate::state::badge_system::{badge_of_code, Badge, BadgeReceipt, BadgeType};
use crate::state::reputation_profile::{category_slot, Category, ReputationProfile};
use crate::utils::constants::{BADGE_SCORE_BONUS, MAX_BADGES};
use crate::utils::reputation_math::sat_add;

verus! {

/// The records a badge claim touches: the profile, the receipt to write and
/// the claimant's key.
#[derive(Clone, Copy, Debug)]
pub struct ClaimBadge {
    pub profile: ReputationProfile,
    pub badge_account: BadgeReceipt,
    pub user: AccountKey,
}

/// Whether some slot of the profile holds a badge of kind `kind`.
pub open spec fn holds_badge(p: ReputationProfile, kind: BadgeType) -> bool {
    exists|i: int| 0 <= i < 10 && #[trigger] p.badges[i].badge_type == kind
}

/// The category that a badge of kind `kind` credits.
pub open spec fn badge_category(kind: BadgeType) -> Category {
    match kind {
        BadgeType::Developer => Category::Development,
        BadgeType::GovernanceParticipant => Category::Governance,
        BadgeType::Innovation | BadgeType::AIValidator => Category::Innovation,
        BadgeType::SecurityAuditor => Category::Security,
        _ => Category::Community,
    }
}

/// The category that a badge of kind `kind` credits.
pub fn category_for_badge(kind: BadgeType) -> (r: Category)
    ensures
        r == badge_category(kind),
{
    match kind {
        BadgeType::Developer => Category::Development,
        BadgeType::GovernanceParticipant => Category::Governance,
        BadgeType::CommunityBuilder | BadgeType::Mentor | BadgeType::EarlyAdopter => Category::Community,
        BadgeType::Innovation | BadgeType::AIValidator => Category::Innovation,
        BadgeType::SecurityAuditor => Category::Security,
        BadgeType::CrossChainBridge | BadgeType::Custom | BadgeType::NoBadge => Category::Community,
    }
}

/// The slot a new badge goes to, searching from slot `i`: the first empty
/// slot, or the last slot when none is empty.
pub open spec fn first_empty_from(badges: Seq<Badge>, i: int) -> int
    decreases badges.len() - i,
{
    if i >= badges.len() {
        badges.len() - 1
    } else if badges[i].badge_type == BadgeType::NoBadge {
        i
    } else {
        first_empty_from(badges, i + 1)
    }
}

/// The slot a new badge goes to: the first empty one, else the last.
pub open spec fn claim_slot(p: ReputationProfile) -> int {
    first_empty_from(p.badges@, 0)
}

/// The first reason, if any, to reject a claim of badge code `code`.
pub open spec fn claim_failure(p: ReputationProfile, code: u8) -> Option<ReputationError> {
    if code > 10 {
        Some(ReputationError::InvalidBadgeProof)
    } else if holds_badge(p, badge_of_code(code)) {
        Some(ReputationError::BadgeAlreadyClaimed)
    } else {
        None
    }
}

/// `new` is `old` after an accepted claim of badge code `code`: the receipt is
/// written, the badge takes the claim slot, and the total and the badge's
/// category each gain the flat bonus.
pub open spec fn is_claimed(
    old: ClaimBadge,
    new: ClaimBadge,
    code: u8,
    proof_hash: [u8; 32],
    now: i64,
) -> bool {
    let p = old.profile;
    let kind = badge_of_code(code);
    let s = claim_slot(p);
    let c = category_slot(badge_category(kind));
    &&& new.user == old.user
    &&& new.badge_account == (BadgeReceipt {
        owner: old.user,
        badge_type: code,
        proof_hash: proof_hash,
        earned_at: now,
    })
    &&& new.profile == (ReputationProfile {
        total_score: sat_add(p.total_score, 25),
        category_scores: new.profile.category_scores,
        badges: new.profile.badges,
        ..p
    })
    &&& new.profile.category_scores@ == p.category_scores@.update(
        c,
        sat_add(p.category_scores[c], 25),
    )
    &&& new.profile.badges[s].badge_type == kind
    &&& new.profile.badges[s].earned_at == now
    &&& new.profile.badges[s].issuer_realm@ == zero_key()
    &&& new.profile.badges[s].metadata_hash == proof_hash
    &&& forall|j: int| 0 <= j < 10 && j != s ==> #[trigger] new.profile.badges[j] == p.badges[j]
}

/// The claim slot is a slot of the profile.
pub proof fn lemma_claim_slot_in_range(badges: Seq<Badge>, i: int)
    requires
        0 <= i,
        badges.len() > 0,
    ensures
        0 <= first_empty_from(badges, i) < badges.len(),
    decreases badges.len() - i,
{
    if i < badges.len() && badges[i].badge_type != BadgeType::NoBadge {
        lemma_claim_slot_in_range(badges, i + 1);
    }
}

fn find_claim_slot(profile: &ReputationProfile) -> (r: usize)
    ensures
        r == claim_slot(*profile),
        r < 10,
{
    let mut i: usize = 0;
    while i < MAX_BADGES
        invariant
            0 <= i <= 10,
            first_empty_from(profile.badges@, 0) == first_empty_from(profile.badges@, i as int),
        decreases 10 - i,
    {
        if matches!(profile.badges[i].badge_type, BadgeType::NoBadge) {
            return i;
        }
        i = i + 1;
    }
    MAX_BADGES - 1
}

/// Whether some slot of the profile holds a badge of kind `kind`.
pub fn has_badge(profile: &ReputationProfile, kind: BadgeType) -> (r: bool)
    ensures
        r == holds_badge(*profile, kind),
{
    let mut i: usize = 0;
    while i < MAX_BADGES
        invariant
            0 <= i <= 10,
            forall|j: int| 0 <= j < i ==> profile.badges[j].badge_type != kind,
        decreases 10 - i,
    {
        if profile.badges[i].badge_type == kind {
            return true;
        }
        i = i + 1;
    }
    false
}

/// The outcome of a badge claim: accepted with `new` as `old` after it, or
/// rejected with the first failing check and nothing changed (no receipt, no
/// bonus).
pub open spec fn claim_outcome(
    old: ClaimBadge,
    new: ClaimBadge,
    code: u8,
    proof_hash: [u8; 32],
    now: i64,
    r: Result<(), ReputationError>,
) -> bool {
    match r {
        Ok(()) => claim_failure(old.profile, code) is None && is_claimed(old, new, code, proof_hash, now),
        Err(e) => claim_failure(old.profile, code) == Some(e) && new == old,
    }
}

/// Claims badge code `badge_type` with its proof hash at time `now`: writes
/// the receipt, places the badge, and credits the flat bonus.
pub fn handler(ctx: &mut ClaimBadge, badge_type: u8, proof_hash: [u8; 32], now: i64) -> (r: Result<
    (),
    ReputationError,
>)
    ensures
        claim_outcome(*old(ctx), *final(ctx), badge_type, proof_hash, now, r),
{
    let kind = match BadgeType::try_from(badge_type) {
        Ok(k) => k,
        Err(()) => return Err(ReputationError::InvalidBadgeProof),
    };
    if has_badge(&ctx.profile, kind) {
        return Err(ReputationError::BadgeAlreadyClaimed);
    }
    ctx.badge_account = BadgeReceipt { owner: ctx.user, badge_type, proof_hash, earned_at: now };

    let slot = find_claim_slot(&ctx.profile);
    ctx.profile.badges[slot] = Badge {
        badge_type: kind,
        earned_at: now,
        issuer_realm: AccountKey::zero(),
        metadata_hash: proof_hash,
    };
    ctx.profile.total_score = ctx.profile.total_score.saturating_add(BADGE_SCORE_BONUS);
    let c = category_for_badge(kind).index();
    ctx.profile.category_scores[c] = ctx.profile.category_scores[c].saturating_add(
        BADGE_SCORE_BONUS,
    );
    Ok(())
}

} // verus!
