use vstd::prelude::*;

verus! {

/// Reasons for which a transition is rejected. A rejected transition leaves
/// every record it was given unchanged.
#[derive(Clone, Copy, PartialEq, Eq, Structural, Debug)]
pub enum ReputationError {
    InvalidInteractionType,
    WeightTooHigh,
    MetadataTooLong,
    CooldownActive,
    SelfInteractionForbidden,
    DailyLimitExceeded,
    InsufficientReputation,
    SuspiciousActivity,
    BotDetected,
    NotRealmMember,
    AdminRequired,
    InvalidActionType,
    RealmNameTooLong,
    InvalidAlgorithmWeights,
    BadgeAlreadyClaimed,
    InvalidBadgeProof,
    DelegationTooHigh,
    SelfDelegationForbidden,
    BridgeOperationFailed,
    SourceRealmNotFound,
    CrossRealmDisabled,
    MathOverflow,
    InvalidTimestamp,
    ProfileNotInitialized,
    RealmCreationFailed,
}

impl ReputationError {
    /// The message shown to a caller for this error.
    pub fn message(&self) -> (r: &'static str) {
        match self {
            ReputationError::InvalidInteractionType => "Invalid interaction type",
            ReputationError::WeightTooHigh => "Weight value too high",
            ReputationError::MetadataTooLong => "Metadata string too long",
            ReputationError::CooldownActive => "Cooldown period still active",
            ReputationError::SelfInteractionForbidden => "Cannot interact with yourself",
            ReputationError::DailyLimitExceeded => "Daily interaction limit exceeded",
            ReputationError::InsufficientReputation => "Insufficient reputation for this action",
            ReputationError::SuspiciousActivity => "Suspicious activity detected",
            ReputationError::BotDetected => "Bot behavior detected",
            ReputationError::NotRealmMember => "Not a member of this realm",
            ReputationError::AdminRequired => "Admin privileges required",
            ReputationError::InvalidActionType => "Invalid action type",
            ReputationError::RealmNameTooLong => "Realm name too long",
            ReputationError::InvalidAlgorithmWeights => "Invalid algorithm weights",
            ReputationError::BadgeAlreadyClaimed => "Badge already claimed",
            ReputationError::InvalidBadgeProof => "Invalid badge proof",
            ReputationError::DelegationTooHigh => "Delegation percentage too high",
            ReputationError::SelfDelegationForbidden => "Cannot delegate to yourself",
            ReputationError::BridgeOperationFailed => "Bridge operation failed",
            ReputationError::SourceRealmNotFound => "Source realm not found",
            ReputationError::CrossRealmDisabled => "Cross-realm operations disabled",
            ReputationError::MathOverflow => "Mathematical overflow",
            ReputationError::InvalidTimestamp => "Invalid timestamp",
            ReputationError::ProfileNotInitialized => "Profile not initialized",
            ReputationError::RealmCreationFailed => "Realm creation failed",
        }
    }
}

} // verus!

verus! {

/// The outcome of a check whose first failure, if any, is `failure`.
pub open spec fn outcome(failure: Option<ReputationError>) -> Result<(), ReputationError> {
    match failure {
        Some(e) => Err(e),
        None => Ok(()),
    }
}

} // verus!
