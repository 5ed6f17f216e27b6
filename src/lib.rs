// Agent reputation ledger: identities, reputation scores computed from
// validations of completed tasks, and rewards that follow the score.
pub mod constants;
pub mod errors;
pub mod state;
pub mod ledger;

pub mod initialize_config;
pub mod register_agent;
pub mod update_metadata;
pub mod submit_validation;
pub mod update_reputation;
pub mod deactivate_agent;
pub mod claim_rewards;

pub mod program;
pub mod laws;
