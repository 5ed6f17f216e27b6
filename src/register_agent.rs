use vstd::prelude::*;

use crate::constants::{INITIAL_REPUTATION_SCORE, MAX_AGENT_ID_LEN, MAX_METADATA_URI_LEN};
use crate::errors::SPL8004Error;
use crate::state::{
    byte_len, str_byte_len, AgentAccounts, GlobalConfig, IdentityRegistry, Pubkey,
    ReputationRegistry, RewardPool,
};

verus! {

/// The registering signer and the configuration whose agent count grows.
pub struct RegisterAgent {
    pub owner: Pubkey,
    pub config: GlobalConfig,
}

/// The three records of an agent that `owner` registers at time `now`.
pub open spec fn fresh_agent(owner: Pubkey, agent_id: String, metadata_uri: String, now: i64) -> AgentAccounts {
    AgentAccounts {
        identity: IdentityRegistry {
            owner: owner,
            agent_id: agent_id,
            metadata_uri: metadata_uri,
            created_at: now,
            updated_at: now,
            is_active: true,
        },
        reputation: ReputationRegistry {
            agent: agent_id,
            score: INITIAL_REPUTATION_SCORE,
            total_tasks: 0,
            successful_tasks: 0,
            failed_tasks: 0,
            last_updated: now,
            stake_amount: 0,
        },
        reward_pool: RewardPool {
            agent: agent_id,
            claimable_amount: 0,
            last_claim: now,
            total_claimed: 0,
        },
    }
}

/// Whether registering with these strings and this configuration fails, and how.
pub open spec fn register_error(config: GlobalConfig, agent_id: Seq<char>, metadata_uri: Seq<char>) -> Option<SPL8004Error> {
    if byte_len(agent_id) > MAX_AGENT_ID_LEN {
        Some(SPL8004Error::AgentIdTooLong)
    } else if byte_len(metadata_uri) > MAX_METADATA_URI_LEN {
        Some(SPL8004Error::MetadataUriTooLong)
    } else if config.total_agents == u64::MAX {
        Some(SPL8004Error::ArithmeticOverflow)
    } else {
        None
    }
}

/// Builds the identity, reputation and reward records of a new agent, owned
/// by the signer, active, scored at the initial score with empty counters and
/// pool, and counts the agent in the configuration.
pub fn handler(ctx: &mut RegisterAgent, agent_id: String, metadata_uri: String, now: i64) -> (r: Result<AgentAccounts, SPL8004Error>)
    ensures
        match register_error(old(ctx).config, agent_id@, metadata_uri@) {
            Some(e) => r == Err::<AgentAccounts, SPL8004Error>(e) && *final(ctx) == *old(ctx),
            None => r == Ok::<AgentAccounts, SPL8004Error>(fresh_agent(old(ctx).owner, agent_id, metadata_uri, now))
                && *final(ctx) == (RegisterAgent {
                    config: GlobalConfig {
                        total_agents: (old(ctx).config.total_agents + 1) as u64,
                        ..old(ctx).config
                    },
                    ..*old(ctx)
                }),
        },
{
    if str_byte_len(&agent_id) > MAX_AGENT_ID_LEN {
        return Err(SPL8004Error::AgentIdTooLong);
    }
    if str_byte_len(&metadata_uri) > MAX_METADATA_URI_LEN {
        return Err(SPL8004Error::MetadataUriTooLong);
    }
    let total_agents = match ctx.config.total_agents.checked_add(1) {
        Some(t) => t,
        None => return Err(SPL8004Error::ArithmeticOverflow),
    };
    ctx.config.total_agents = total_agents;
    let reputation = ReputationRegistry {
        agent: agent_id.clone(),
        score: INITIAL_REPUTATION_SCORE,
        total_tasks: 0,
        successful_tasks: 0,
        failed_tasks: 0,
        last_updated: now,
        stake_amount: 0,
    };
    let reward_pool = RewardPool {
        agent: agent_id.clone(),
        claimable_amount: 0,
        last_claim: now,
        total_claimed: 0,
    };
    let identity = IdentityRegistry {
        owner: ctx.owner,
        agent_id,
        metadata_uri,
        created_at: now,
        updated_at: now,
        is_active: true,
    };
    Ok(AgentAccounts { identity, reputation, reward_pool })
}

} // verus!
