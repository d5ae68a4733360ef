//! The top-level operations: each takes the records it names, checks its
//! inputs, and either applies its transition or leaves every record as it was.
pub mod record_interaction;
pub mod bridge_reputation;
pub mod cast_reputation_vote;
pub mod delegate_reputation;
pub mod update_algorithm;
pub mod claim_badge;
pub mod create_realm;
pub mod initialize_profile;
