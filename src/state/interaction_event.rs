use vstd::prelude::*;
use crate::state::account_key::AccountKey;

verus! {

/// The append-only log record of one recorded interaction.
#[derive(Clone, Copy, Debug)]
pub struct InteractionEvent {
    pub from: AccountKey,
    pub to: AccountKey,
    pub interaction_type: u8,
    pub weight: u16,
    pub metadata_hash: [u8; 32],
    pub reputation_delta: u64,
    pub timestamp: i64,
}

} // verus!
