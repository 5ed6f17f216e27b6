use vstd::prelude::*;

verus! {

/// Every way an operation on the ledger can fail. A failed operation leaves
/// all records as they were.
#[derive(Clone, Copy, Debug, PartialEq, Eq, Structural)]
pub enum SPL8004Error {
    AgentIdTooLong,
    MetadataUriTooLong,
    EvidenceUriTooLong,
    AgentNotActive,
    Unauthorized,
    InvalidReputationScore,
    ValidationAlreadyExists,
    InsufficientReputation,
    InvalidCommissionRate,
    RewardClaimTooEarly,
    NoRewardsAvailable,
    ArithmeticOverflow,
    AgentAlreadyRegistered,
    /// The record store holds no record at the requested address.
    RecordNotFound,
    /// Records handed over together do not all belong to the same agent.
    RecordMismatch,
}

impl SPL8004Error {
    /// Human-readable description of the error.
    pub fn message(&self) -> (r: &'static str) {
        match self {
            SPL8004Error::AgentIdTooLong => "Agent ID exceeds maximum length of 64 characters",
            SPL8004Error::MetadataUriTooLong => "Metadata URI exceeds maximum length of 200 characters",
            SPL8004Error::EvidenceUriTooLong => "Evidence URI exceeds maximum length of 200 characters",
            SPL8004Error::AgentNotActive => "Agent is not active",
            SPL8004Error::Unauthorized => "Unauthorized: caller is not the agent owner",
            SPL8004Error::InvalidReputationScore => "Invalid reputation score",
            SPL8004Error::ValidationAlreadyExists => "Validation already exists for the given task hash",
            SPL8004Error::InsufficientReputation => "Insufficient reputation score for this action",
            SPL8004Error::InvalidCommissionRate => "Commission rate exceeds maximum allowed (10%)",
            SPL8004Error::RewardClaimTooEarly => "Reward claim too early, must wait 24 hours",
            SPL8004Error::NoRewardsAvailable => "No rewards available to claim",
            SPL8004Error::ArithmeticOverflow => "Arithmetic overflow",
            SPL8004Error::AgentAlreadyRegistered => "Agent already registered",
            SPL8004Error::RecordNotFound => "Record not found",
            SPL8004Error::RecordMismatch => "Records belong to different agents",
        }
    }
}

} // verus!
