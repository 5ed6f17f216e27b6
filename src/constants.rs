use vstd::prelude::*;

verus! {

/// Largest agent identifier, in bytes.
pub const MAX_AGENT_ID_LEN: usize = 64;

/// Largest metadata URI, in bytes.
pub const MAX_METADATA_URI_LEN: usize = 200;

/// Largest evidence URI, in bytes.
pub const MAX_EVIDENCE_URI_LEN: usize = 200;

/// Score given to a freshly registered agent.
pub const INITIAL_REPUTATION_SCORE: u64 = 5000;

/// Upper bound of a reputation score.
pub const MAX_REPUTATION_SCORE: u64 = 10000;

/// Lower bound of a reputation score.
pub const MIN_REPUTATION_SCORE: u64 = 0;

/// Flat fee of one validation; the commission is a fraction of it.
pub const VALIDATION_FEE: u64 = 1_000_000;

/// Fee of one registration.
pub const REGISTRATION_FEE: u64 = 5_000_000;

/// Commission rate suggested for a new deployment, in basis points.
pub const DEFAULT_COMMISSION_RATE: u16 = 300;

/// Largest commission rate, in basis points of 10000.
pub const MAX_COMMISSION_RATE: u16 = 1000;

/// Minimum time between two reward claims of one agent, in seconds.
pub const REWARD_CLAIM_INTERVAL: i64 = 86400;

/// Base reward of one approved task, before the score multiplier.
pub const BASE_REWARD: u64 = 100_000;

} // verus!
