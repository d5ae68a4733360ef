//! The records that the engine reads and mutates.
pub mod account_key;
pub mod badge_system;
pub mod governance_realm;
pub mod interaction_event;
pub mod reputation_profile;
