use vstd::prelude::*;

verus! {

/// Number of badge slots in a profile.
pub const MAX_BADGES: usize = 10;

/// Trust multiplier of a new profile (fixed point, 100 stands for 1.00).
pub const DEFAULT_TRUST_MULTIPLIER: u64 = 100;

/// Decay rate of a new profile, in percent per thirty days.
pub const DEFAULT_DECAY_RATE: u8 = 2;

/// AI validation score of a new profile.
pub const DEFAULT_AI_VALIDATION_SCORE: u32 = 500;

/// Flat score bonus for each claimed badge, added to the total and to one category.
pub const BADGE_SCORE_BONUS: u64 = 25;

} // verus!
