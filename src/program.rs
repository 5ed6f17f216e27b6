use vstd::prelude::*;

use crate::claim_rewards::{claim_result, pool_after_claim, ClaimRewards};
use crate::constants::MAX_COMMISSION_RATE;
use crate::deactivate_agent::{deactivate_result, DeactivateAgent};
use crate::errors::SPL8004Error;
use crate::ledger::Ledger;
use crate::register_agent::{fresh_agent, register_error, RegisterAgent};
use crate::state::{AgentAccounts, GlobalConfig, IdentityRegistry, Pubkey};
use crate::submit_validation::{commission_for, new_validation, submit_error, SubmitValidation};
use crate::update_metadata::{update_metadata_result, UpdateMetadata};
use crate::update_reputation::{update_reputation_post, update_reputation_result, UpdateReputation};
use crate::{
    claim_rewards as claim_ix, deactivate_agent as deactivate_ix, initialize_config as init_ix,
    register_agent as register_ix, submit_validation as submit_ix, update_metadata as metadata_ix,
    update_reputation as reputation_ix,
};

verus! {

/// Effect of `initialize_config`: a rate above the maximum is refused;
/// otherwise a ledger with no record but its configuration.
pub open spec fn initialize_config_spec(
    authority: Pubkey,
    commission_rate: u16,
    treasury: Pubkey,
    r: Result<Ledger, SPL8004Error>,
) -> bool {
    if commission_rate > MAX_COMMISSION_RATE {
        r == Err::<Ledger, SPL8004Error>(SPL8004Error::InvalidCommissionRate)
    } else {
        match r {
            Ok(l) => l.wf() && l.config == (GlobalConfig {
                authority: authority,
                treasury: treasury,
                commission_rate: commission_rate,
                total_agents: 0,
                total_validations: 0,
            }) && l.agents@.len() == 0 && l.validations@.len() == 0,
            Err(_) => false,
        }
    }
}

/// Effect of `register_agent` on `old`, giving `new` and result `r`.
pub open spec fn register_agent_spec(
    old: Ledger,
    new: Ledger,
    owner: Pubkey,
    agent_id: String,
    metadata_uri: String,
    now: i64,
    r: Result<(), SPL8004Error>,
) -> bool {
    if old.has_agent(agent_id@) {
        r == Err::<(), SPL8004Error>(SPL8004Error::AgentAlreadyRegistered) && new == old
    } else {
        match register_error(old.config, agent_id@, metadata_uri@) {
            Some(e) => r == Err::<(), SPL8004Error>(e) && new == old,
            None => r == Ok::<(), SPL8004Error>(()) && new == (Ledger {
                config: GlobalConfig { total_agents: (old.config.total_agents + 1) as u64, ..old.config },
                agents: new.agents,
                ..old
            }) && new.agents@ == old.agents@.push(fresh_agent(owner, agent_id, metadata_uri, now)),
        }
    }
}

/// `new` is `old` with the records of agent `id` replaced by `rec`.
pub open spec fn agent_replaced(old: Ledger, new: Ledger, id: Seq<char>, rec: AgentAccounts) -> bool {
    &&& new.config == old.config
    &&& new.validations == old.validations
    &&& new.agents@ == old.agents@.update(old.agent_index(id), rec)
}

/// Effect of `update_metadata` on `old`, giving `new` and result `r`.
pub open spec fn update_metadata_spec(
    old: Ledger,
    new: Ledger,
    owner: Pubkey,
    id: Seq<char>,
    uri: String,
    now: i64,
    r: Result<(), SPL8004Error>,
) -> bool {
    if !old.has_agent(id) {
        r == Err::<(), SPL8004Error>(SPL8004Error::RecordNotFound) && new == old
    } else {
        let res = update_metadata_result(UpdateMetadata { identity: old.agent(id).identity, owner: owner }, uri@);
        &&& r == res
        &&& r is Err ==> new == old
        &&& r is Ok ==> agent_replaced(old, new, id, AgentAccounts {
            identity: IdentityRegistry { metadata_uri: uri, updated_at: now, ..old.agent(id).identity },
            ..old.agent(id)
        })
    }
}

/// Effect of `deactivate_agent` on `old`, giving `new` and result `r`.
pub open spec fn deactivate_agent_spec(
    old: Ledger,
    new: Ledger,
    owner: Pubkey,
    id: Seq<char>,
    now: i64,
    r: Result<(), SPL8004Error>,
) -> bool {
    if !old.has_agent(id) {
        r == Err::<(), SPL8004Error>(SPL8004Error::RecordNotFound) && new == old
    } else {
        let res = deactivate_result(DeactivateAgent { identity: old.agent(id).identity, owner: owner });
        &&& r == res
        &&& r is Err ==> new == old
        &&& r is Ok ==> agent_replaced(old, new, id, AgentAccounts {
            identity: IdentityRegistry { is_active: false, updated_at: now, ..old.agent(id).identity },
            ..old.agent(id)
        })
    }
}

/// Effect of `claim_rewards` on `old`, giving `new` and result `r`.
pub open spec fn claim_rewards_spec(
    old: Ledger,
    new: Ledger,
    owner: Pubkey,
    id: Seq<char>,
    now: i64,
    r: Result<u64, SPL8004Error>,
) -> bool {
    if !old.has_agent(id) {
        r == Err::<u64, SPL8004Error>(SPL8004Error::RecordNotFound) && new == old
    } else {
        let res = claim_result(ClaimRewards {
            identity: old.agent(id).identity,
            reward_pool: old.agent(id).reward_pool,
            owner: owner,
        }, now);
        &&& r == res
        &&& r is Err ==> new == old
        &&& r is Ok ==> agent_replaced(old, new, id, AgentAccounts {
            reward_pool: pool_after_claim(old.agent(id).reward_pool, now),
            ..old.agent(id)
        })
    }
}

/// Effect of `submit_validation` on `old`, giving `new` and result `r`.
pub open spec fn submit_validation_spec(
    old: Ledger,
    new: Ledger,
    validator: Pubkey,
    id: Seq<char>,
    task_hash: [u8; 32],
    approved: bool,
    evidence_uri: String,
    now: i64,
    r: Result<u64, SPL8004Error>,
) -> bool {
    if !old.has_agent(id) {
        r == Err::<u64, SPL8004Error>(SPL8004Error::RecordNotFound) && new == old
    } else if old.has_validation(id, task_hash@) {
        r == Err::<u64, SPL8004Error>(SPL8004Error::ValidationAlreadyExists) && new == old
    } else {
        let ctx = SubmitValidation {
            agent: old.agent(id).identity,
            validator: validator,
            config: old.config,
        };
        match submit_error(ctx, evidence_uri@) {
            Some(e) => r == Err::<u64, SPL8004Error>(e) && new == old,
            None => {
                &&& r == Ok::<u64, SPL8004Error>(commission_for(old.config.commission_rate as int) as u64)
                &&& new.config == (GlobalConfig {
                    total_validations: (old.config.total_validations + 1) as u64,
                    ..old.config
                })
                &&& new.agents == old.agents
                &&& new.validations@ == old.validations@.push(
                    new_validation(old.agent(id).identity.agent_id, validator, task_hash, approved, evidence_uri, now),
                )
            },
        }
    }
}

/// Effect of `update_reputation` on `old`, giving `new` and result `r`.
pub open spec fn update_reputation_spec(
    old: Ledger,
    new: Ledger,
    id: Seq<char>,
    task_hash: Seq<u8>,
    now: i64,
    r: Result<(), SPL8004Error>,
) -> bool {
    if !old.has_agent(id) {
        r == Err::<(), SPL8004Error>(SPL8004Error::RecordNotFound) && new == old
    } else if !old.agent(id).identity.is_active {
        r == Err::<(), SPL8004Error>(SPL8004Error::AgentNotActive) && new == old
    } else if !old.has_validation(id, task_hash) {
        r == Err::<(), SPL8004Error>(SPL8004Error::RecordNotFound) && new == old
    } else {
        let ctx = UpdateReputation {
            reputation: old.agent(id).reputation,
            agent: old.agent(id).identity,
            validation: old.validation(id, task_hash),
            reward_pool: old.agent(id).reward_pool,
        };
        let post = update_reputation_post(ctx, now);
        &&& r == update_reputation_result(ctx)
        &&& r is Err ==> new == old
        &&& r is Ok ==> agent_replaced(old, new, id, AgentAccounts {
            reputation: post.reputation,
            reward_pool: post.reward_pool,
            ..old.agent(id)
        })
    }
}

/// Creates the ledger of a deployment with its configuration, signed by
/// `authority`.
pub fn initialize_config(authority: Pubkey, commission_rate: u16, treasury: Pubkey) -> (r: Result<
    Ledger,
    SPL8004Error,
>)
    ensures
        initialize_config_spec(authority, commission_rate, treasury, r),
{
    let ctx = init_ix::InitializeConfig { authority };
    match init_ix::handler(&ctx, commission_rate, treasury) {
        Ok(config) => Ok(Ledger { config, agents: Vec::new(), validations: Vec::new() }),
        Err(e) => Err(e),
    }
}

/// Registers a new agent under `agent_id`, owned by the signer `owner`.
pub fn register_agent(
    ledger: &mut Ledger,
    owner: Pubkey,
    agent_id: String,
    metadata_uri: String,
    now: i64,
) -> (r: Result<(), SPL8004Error>)
    requires
        old(ledger).wf(),
    ensures
        final(ledger).wf(),
        register_agent_spec(*old(ledger), *final(ledger), owner, agent_id, metadata_uri, now, r),
{
    if ledger.find_agent(&agent_id).is_some() {
        return Err(SPL8004Error::AgentAlreadyRegistered);
    }
    let mut ctx = RegisterAgent { owner, config: ledger.config.copy() };
    match register_ix::handler(&mut ctx, agent_id, metadata_uri, now) {
        Ok(accounts) => {
            ledger.config = ctx.config;
            ledger.agents.push(accounts);
            proof {
                let n = old(ledger).agents@.len() as int;
                assert forall|i: int, j: int|
                    0 <= i < ledger.agents@.len() && 0 <= j < ledger.agents@.len() && i != j
                        implies #[trigger] ledger.agents@[i].identity.agent_id@
                        != #[trigger] ledger.agents@[j].identity.agent_id@ by {
                    if i == n {
                        assert(old(ledger).agents@[j].identity.agent_id@ == ledger.agents@[j].identity.agent_id@);
                    } else if j == n {
                        assert(old(ledger).agents@[i].identity.agent_id@ == ledger.agents@[i].identity.agent_id@);
                    }
                }
            }
            Ok(())
        },
        Err(e) => Err(e),
    }
}

/// Replaces the metadata URI of agent `agent_id`; the signer `owner` must
/// own it and it must be active.
pub fn update_metadata(
    ledger: &mut Ledger,
    owner: Pubkey,
    agent_id: &String,
    new_metadata_uri: String,
    now: i64,
) -> (r: Result<(), SPL8004Error>)
    requires
        old(ledger).wf(),
    ensures
        final(ledger).wf(),
        update_metadata_spec(*old(ledger), *final(ledger), owner, agent_id@, new_metadata_uri, now, r),
{
    let i = match ledger.find_agent(agent_id) {
        Some(i) => i,
        None => return Err(SPL8004Error::RecordNotFound),
    };
    proof {
        assert(ledger.agents@[i as int].wf());
    }
    let AgentAccounts { identity, reputation, reward_pool } = ledger.agents[i].copy();
    let mut ctx = UpdateMetadata { identity, owner };
    let r = metadata_ix::handler(&mut ctx, new_metadata_uri, now);
    if r.is_ok() {
        ledger.store_agent(i, AgentAccounts { identity: ctx.identity, reputation, reward_pool });
    }
    r
}

/// Deactivates agent `agent_id` for good; the signer `owner` must own it.
pub fn deactivate_agent(ledger: &mut Ledger, owner: Pubkey, agent_id: &String, now: i64) -> (r: Result<
    (),
    SPL8004Error,
>)
    requires
        old(ledger).wf(),
    ensures
        final(ledger).wf(),
        deactivate_agent_spec(*old(ledger), *final(ledger), owner, agent_id@, now, r),
{
    let i = match ledger.find_agent(agent_id) {
        Some(i) => i,
        None => return Err(SPL8004Error::RecordNotFound),
    };
    proof {
        assert(ledger.agents@[i as int].wf());
    }
    let AgentAccounts { identity, reputation, reward_pool } = ledger.agents[i].copy();
    let mut ctx = DeactivateAgent { identity, owner };
    let r = deactivate_ix::handler(&mut ctx, now);
    if r.is_ok() {
        ledger.store_agent(i, AgentAccounts { identity: ctx.identity, reputation, reward_pool });
    }
    r
}

/// Claims the rewards of agent `agent_id` for its owner `owner`. On success
/// returns the amount that the host moves from the agent's pool to the owner.
pub fn claim_rewards(ledger: &mut Ledger, owner: Pubkey, agent_id: &String, now: i64) -> (r: Result<
    u64,
    SPL8004Error,
>)
    requires
        old(ledger).wf(),
    ensures
        final(ledger).wf(),
        claim_rewards_spec(*old(ledger), *final(ledger), owner, agent_id@, now, r),
{
    let i = match ledger.find_agent(agent_id) {
        Some(i) => i,
        None => return Err(SPL8004Error::RecordNotFound),
    };
    proof {
        assert(ledger.agents@[i as int].wf());
    }
    let AgentAccounts { identity, reputation, reward_pool } = ledger.agents[i].copy();
    let mut ctx = ClaimRewards { identity, reward_pool, owner };
    let r = claim_ix::handler(&mut ctx, now);
    if r.is_ok() {
        ledger.store_agent(
            i,
            AgentAccounts { identity: ctx.identity, reputation, reward_pool: ctx.reward_pool },
        );
    }
    r
}

/// Writes the judgment by the signer `validator` of task `task_hash` of
/// agent `agent_id`; each task of an agent is judged once. On success returns
/// the commission that the host moves from the validator to the treasury.
pub fn submit_validation(
    ledger: &mut Ledger,
    validator: Pubkey,
    agent_id: &String,
    task_hash: [u8; 32],
    approved: bool,
    evidence_uri: String,
    now: i64,
) -> (r: Result<u64, SPL8004Error>)
    requires
        old(ledger).wf(),
    ensures
        final(ledger).wf(),
        submit_validation_spec(
            *old(ledger),
            *final(ledger),
            validator,
            agent_id@,
            task_hash,
            approved,
            evidence_uri,
            now,
            r,
        ),
{
    let i = match ledger.find_agent(agent_id) {
        Some(i) => i,
        None => return Err(SPL8004Error::RecordNotFound),
    };
    if ledger.find_validation(agent_id, &task_hash).is_some() {
        return Err(SPL8004Error::ValidationAlreadyExists);
    }
    let mut ctx = SubmitValidation {
        agent: ledger.agents[i].identity.copy(),
        validator,
        config: ledger.config.copy(),
    };
    match submit_ix::handler(&mut ctx, task_hash, approved, evidence_uri, now) {
        Ok((validation, commission)) => {
            ledger.config = ctx.config;
            ledger.validations.push(validation);
            proof {
                let n = old(ledger).validations@.len() as int;
                assert(ledger.validations@[n].agent@ == agent_id@);
                assert forall|a: int, b: int|
                    0 <= a < ledger.validations@.len() && 0 <= b < ledger.validations@.len() && a != b
                        implies !(#[trigger] ledger.validations@[a].agent@
                        == #[trigger] ledger.validations@[b].agent@
                        && ledger.validations@[a].task_hash@ == ledger.validations@[b].task_hash@) by {
                    if a == n {
                        assert(old(ledger).validations@[b] == ledger.validations@[b]);
                    } else if b == n {
                        assert(old(ledger).validations@[a] == ledger.validations@[a]);
                    } else {
                        assert(old(ledger).validations@[a] == ledger.validations@[a]);
                        assert(old(ledger).validations@[b] == ledger.validations@[b]);
                    }
                }
            }
            Ok(commission)
        },
        Err(e) => Err(e),
    }
}

/// Scores the judgment of task `task_hash` of agent `agent_id` into the
/// agent's reputation and, when approved, its reward pool. The validation
/// record itself stays as written: nothing marks it as scored, so the host
/// applies each validation once, and a second application scores it again.
pub fn update_reputation(ledger: &mut Ledger, agent_id: &String, task_hash: &[u8; 32], now: i64) -> (r: Result<
    (),
    SPL8004Error,
>)
    requires
        old(ledger).wf(),
    ensures
        final(ledger).wf(),
        update_reputation_spec(*old(ledger), *final(ledger), agent_id@, task_hash@, now, r),
{
    let i = match ledger.find_agent(agent_id) {
        Some(i) => i,
        None => return Err(SPL8004Error::RecordNotFound),
    };
    if !ledger.agents[i].identity.is_active {
        return Err(SPL8004Error::AgentNotActive);
    }
    let v = match ledger.find_validation(agent_id, task_hash) {
        Some(v) => v,
        None => return Err(SPL8004Error::RecordNotFound),
    };
    proof {
        assert(ledger.agents@[i as int].wf());
    }
    let AgentAccounts { identity, reputation, reward_pool } = ledger.agents[i].copy();
    let mut ctx = UpdateReputation {
        reputation,
        agent: identity,
        validation: ledger.validations[v].copy(),
        reward_pool,
    };
    let r = reputation_ix::handler(&mut ctx, now);
    if r.is_ok() {
        ledger.store_agent(
            i,
            AgentAccounts {
                identity: ctx.agent,
                reputation: ctx.reputation,
                reward_pool: ctx.reward_pool,
            },
        );
    }
    r
}

} // verus!
