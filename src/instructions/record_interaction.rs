use vstd::prelude::*;
use vstd::string::StringSliceAdditionalSpecFns;
use crate::errors::ReputationError;
use crate::state::account_key::AccountKey;
use crate::state::interaction_event::InteractionEvent;
use crate::state::reputation_profile::{category_slot, Category, ReputationProfile};
use crate::utils::reputation_math::{
    apply_multipliers,
    calculate_interaction_impact,
    hash_metadata,
    interaction_delta,
    keccak256_of,
    sat_add,
};
use crate::utils::security::{limits_failure, validate_interaction_limits};

verus! {

/// The records an interaction touches: the giver's and the receiver's
/// profiles, the event record to fill, and the two parties' keys.
#[derive(Clone, Copy, Debug)]
pub struct RecordInteraction {
    pub from_profile: ReputationProfile,
    pub to_profile: ReputationProfile,
    pub interaction_event: InteractionEvent,
    pub from_user: AccountKey,
    pub to_user: AccountKey,
}

/// The notice emitted for each recorded interaction.
#[derive(Clone, Copy, Debug)]
pub struct InteractionRecorded {
    pub from: AccountKey,
    pub to: AccountKey,
    pub interaction_type: u8,
    pub reputation_delta: u64,
    pub timestamp: i64,
}

/// Cooldown in seconds for each group of interaction types.
pub open spec fn cooldown_for(t: u8) -> i64 {
    if t <= 2 {
        300
    } else if t <= 6 {
        1800
    } else {
        7200
    }
}

/// The category that an interaction of type `t` credits.
pub open spec fn interaction_category(t: u8) -> Category {
    if t == 3 || t == 4 {
        Category::Development
    } else if t == 6 {
        Category::Security
    } else if t == 7 {
        Category::Innovation
    } else if t == 9 {
        Category::Governance
    } else {
        Category::Community
    }
}

/// The category that an interaction of type `t` credits.
pub fn category_for_interaction(t: u8) -> (r: Category)
    ensures
        r == interaction_category(t),
{
    match t {
        3 | 4 => Category::Development,
        6 => Category::Security,
        7 => Category::Innovation,
        9 => Category::Governance,
        _ => Category::Community,
    }
}

/// The first reason, if any, to reject an interaction: its type, its weight,
/// its metadata length, then the anti-abuse checks.
pub open spec fn interaction_failure(
    ctx: RecordInteraction,
    t: u8,
    weight: u16,
    metadata_len: nat,
    now: i64,
) -> Option<ReputationError> {
    if t > 9 {
        Some(ReputationError::InvalidInteractionType)
    } else if weight == 0 || weight > 1000 {
        Some(ReputationError::WeightTooHigh)
    } else if metadata_len > 256 {
        Some(ReputationError::MetadataTooLong)
    } else {
        limits_failure(ctx.from_profile, ctx.to_profile, t, now, cooldown_for(t))
    }
}

/// `new` is `old` after an accepted interaction whose metadata digest is
/// `digest`: the receiver gains the delta in its total and in the category of
/// the type, counts one more interaction, and both parties are active at
/// `now`; the event records the interaction.
pub open spec fn is_recorded(
    old: RecordInteraction,
    new: RecordInteraction,
    t: u8,
    weight: u16,
    digest: Seq<u8>,
    now: i64,
) -> bool {
    let delta = interaction_delta(old.from_profile, old.to_profile, t, weight, now);
    let slot = category_slot(interaction_category(t));
    let to = old.to_profile;
    &&& new.from_user == old.from_user
    &&& new.to_user == old.to_user
    &&& new.from_profile == (ReputationProfile { last_activity: now, ..old.from_profile })
    &&& new.to_profile == (ReputationProfile {
        total_score: sat_add(to.total_score, delta),
        category_scores: new.to_profile.category_scores,
        interaction_count: if to.interaction_count == u32::MAX {
            u32::MAX
        } else {
            (to.interaction_count + 1) as u32
        },
        last_activity: now,
        ..to
    })
    &&& new.to_profile.category_scores@ == to.category_scores@.update(
        slot,
        sat_add(to.category_scores[slot], delta),
    )
    &&& new.interaction_event == (InteractionEvent {
        from: old.from_user,
        to: old.to_user,
        interaction_type: t,
        weight: weight,
        metadata_hash: new.interaction_event.metadata_hash,
        reputation_delta: delta,
        timestamp: now,
    })
    &&& new.interaction_event.metadata_hash@ == digest
}

/// The outcome of recording an interaction: either it is accepted and `new`
/// is `old` after it, with `r` the notice to emit, or it is rejected with the
/// first failing check and nothing changes.
pub open spec fn interaction_outcome(
    old: RecordInteraction,
    new: RecordInteraction,
    t: u8,
    weight: u16,
    metadata: Seq<u8>,
    now: i64,
    r: Result<InteractionRecorded, ReputationError>,
) -> bool {
    match r {
        Ok(notice) => {
            &&& interaction_failure(old, t, weight, metadata.len(), now) is None
            &&& is_recorded(old, new, t, weight, keccak256_of(metadata), now)
            &&& notice == (InteractionRecorded {
                from: old.from_user,
                to: old.to_user,
                interaction_type: t,
                reputation_delta: new.interaction_event.reputation_delta,
                timestamp: now,
            })
        },
        Err(e) => {
            &&& interaction_failure(old, t, weight, metadata.len(), now) == Some(e)
            &&& new == old
        },
    }
}

/// Records an interaction of the given type and weight from the giver to the
/// receiver at time `now`, and returns the notice to emit.
pub fn handler(
    ctx: &mut RecordInteraction,
    interaction_type: u8,
    weight: u16,
    metadata: &str,
    now: i64,
) -> (r: Result<InteractionRecorded, ReputationError>)
    ensures
        interaction_outcome(
            *old(ctx),
            *final(ctx),
            interaction_type,
            weight,
            metadata.spec_bytes(),
            now,
            r,
        ),
        interaction_type > 9 || weight == 0 || weight > 1000 ==> r is Err && *final(ctx) == *old(
            ctx,
        ),
        old(ctx).from_profile.wallet@ == old(ctx).to_profile.wallet@ ==> r is Err,
{
    if interaction_type > 9 {
        return Err(ReputationError::InvalidInteractionType);
    }
    if !(weight > 0 && weight <= 1000) {
        return Err(ReputationError::WeightTooHigh);
    }
    if metadata.as_bytes().len() > 256 {
        return Err(ReputationError::MetadataTooLong);
    }
    let cooldown_period: i64 = match interaction_type {
        0..=2 => 300,
        3..=6 => 1800,
        _ => 7200,
    };
    match validate_interaction_limits(
        &ctx.from_profile,
        &ctx.to_profile,
        interaction_type,
        now,
        cooldown_period,
    ) {
        Ok(()) => {},
        Err(e) => return Err(e),
    }
    let capped = match calculate_interaction_impact(
        &ctx.from_profile,
        &ctx.to_profile,
        interaction_type,
        weight,
        now,
    ) {
        Ok(v) => v,
        Err(e) => return Err(e),
    };
    let reputation_delta = apply_multipliers(capped, &ctx.from_profile);

    ctx.to_profile.total_score = ctx.to_profile.total_score.saturating_add(reputation_delta);
    ctx.to_profile.interaction_count = ctx.to_profile.interaction_count.saturating_add(1);
    ctx.to_profile.last_activity = now;
    let cat = category_for_interaction(interaction_type).index();
    ctx.to_profile.category_scores[cat] = ctx.to_profile.category_scores[cat].saturating_add(
        reputation_delta,
    );
    ctx.from_profile.last_activity = now;

    let metadata_hash = hash_metadata(metadata);
    ctx.interaction_event = InteractionEvent {
        from: ctx.from_user,
        to: ctx.to_user,
        interaction_type,
        weight,
        metadata_hash,
        reputation_delta,
        timestamp: now,
    };
    Ok(
        InteractionRecorded {
            from: ctx.from_user,
            to: ctx.to_user,
            interaction_type,
            reputation_delta,
            timestamp: now,
        },
    )
}

} // verus!
