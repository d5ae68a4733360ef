//! Score arithmetic, scoring tables and anti-abuse checks.
pub mod constants;
pub mod reputation_math;
pub mod security;
pub mod sybil_score;
