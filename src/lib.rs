//! Reputation computation and anti-abuse engine for a multi-realm governance
//! network: pure state transitions over profile and realm records.
//!
//! The host supplies the records, the authenticated signer keys and the time;
//! each operation below either applies its transition to the records it is
//! given or rejects the call and leaves them exactly as they were.
use vstd::prelude::*;
use vstd::string::StringSliceAdditionalSpecFns;

pub mod errors;
pub mod state;
pub mod utils;
pub mod instructions;
pub mod laws;

use crate::errors::ReputationError;
use crate::instructions::bridge_reputation::{bridge_outcome, BridgeReputation};
use crate::instructions::cast_reputation_vote::{vote_outcome, CastReputationVote};
use crate::instructions::claim_badge::{claim_outcome, ClaimBadge};
use crate::instructions::create_realm::{realm_outcome, CreateRealm};
use crate::instructions::delegate_reputation::{delegation_outcome, DelegateReputation};
use crate::instructions::initialize_profile::{is_fresh_profile, InitializeProfile};
use crate::instructions::record_interaction::{
    interaction_outcome,
    InteractionRecorded,
    RecordInteraction,
};
use crate::instructions::update_algorithm::{algorithm_of, update_outcome, UpdateAlgorithm};
use crate::state::account_key::AccountKey;

verus! {

/// Creates the profile of the signing user.
pub fn initialize_profile(ctx: &mut InitializeProfile) -> (r: Result<(), ReputationError>)
    ensures
        r is Ok,
        final(ctx).user == old(ctx).user,
        is_fresh_profile(final(ctx).profile, old(ctx).user),
{
    instructions::initialize_profile::handler(ctx)
}

/// Records an interaction of type `0..=9` and weight `1..=1000` with at most
/// 256 bytes of metadata at time `now`.
pub fn record_interaction(
    ctx: &mut RecordInteraction,
    interaction_type: u8,
    weight: u16,
    metadata: &str,
    now: i64,
) -> (r: Result<InteractionRecorded, ReputationError>)
    ensures
        interaction_outcome(
            *old(ctx),
            *final(ctx),
            interaction_type,
            weight,
            metadata.spec_bytes(),
            now,
            r,
        ),
{
    instructions::record_interaction::handler(ctx, interaction_type, weight, metadata, now)
}

/// Casts a governance vote of type `0..=2` with a justification of at most 280 bytes.
pub fn cast_reputation_vote(ctx: &mut CastReputationVote, vote_type: u8, justification: &str) -> (r:
    Result<(), ReputationError>)
    ensures
        vote_outcome(*old(ctx), *final(ctx), vote_type, justification.spec_bytes(), r),
{
    instructions::cast_reputation_vote::handler(ctx, vote_type, justification)
}

/// Creates a realm with a name of at most 32 bytes and nonzero total weight.
pub fn create_realm(ctx: &mut CreateRealm, realm_name: &str, algorithm_weights: [u16; 5], now: i64) -> (r:
    Result<(), ReputationError>)
    ensures
        realm_outcome(*old(ctx), *final(ctx), realm_name.spec_bytes(), algorithm_weights, now, r),
{
    instructions::create_realm::handler(ctx, realm_name, algorithm_weights, now)
}

/// Delegates `1..=100` percent of the delegator's score to `delegate_to`.
pub fn delegate_reputation(
    ctx: &mut DelegateReputation,
    delegate_to: AccountKey,
    weight_percentage: u8,
) -> (r: Result<(), ReputationError>)
    ensures
        delegation_outcome(*old(ctx), *final(ctx), delegate_to@, weight_percentage, r),
{
    instructions::delegate_reputation::handler(ctx, delegate_to, weight_percentage)
}

/// Claims the badge of code `0..=10` with its proof hash at time `now`.
pub fn claim_badge(ctx: &mut ClaimBadge, badge_type: u8, proof_hash: [u8; 32], now: i64) -> (r:
    Result<(), ReputationError>)
    ensures
        claim_outcome(*old(ctx), *final(ctx), badge_type, proof_hash, now, r),
{
    instructions::claim_badge::handler(ctx, badge_type, proof_hash, now)
}

/// Imports cross-realm reputation of a positive weight.
pub fn bridge_reputation(ctx: &mut BridgeReputation, source_realm: AccountKey, bridge_weight: u8) -> (r:
    Result<(), ReputationError>)
    ensures
        bridge_outcome(*old(ctx), *final(ctx), bridge_weight, r),
{
    instructions::bridge_reputation::handler(ctx, source_realm, bridge_weight)
}

/// Overwrites a realm's algorithm parameters; admins only.
pub fn update_algorithm(
    ctx: &mut UpdateAlgorithm,
    algorithm_weights: [u16; 5],
    decay_factor: u8,
    ai_enhancement: bool,
    cross_realm_factor: u8,
) -> (r: Result<(), ReputationError>)
    ensures
        update_outcome(
            *old(ctx),
            *final(ctx),
            algorithm_of(algorithm_weights, decay_factor, ai_enhancement, cross_realm_factor),
            r,
        ),
{
    instructions::update_algorithm::handler(
        ctx,
        algorithm_weights,
        decay_factor,
        ai_enhancement,
        cross_realm_factor,
    )
}

} // verus!
