use vstd::prelude::*;

use crate::constants::{INITIAL_REPUTATION_SCORE, MAX_AGENT_ID_LEN, MAX_METADATA_URI_LEN, REWARD_CLAIM_INTERVAL};
use crate::errors::SPL8004Error;
use crate::ledger::Ledger;
use crate::program::{
    claim_rewards_spec, deactivate_agent_spec, register_agent_spec, submit_validation_spec,
    update_metadata_spec, update_reputation_spec,
};
use crate::state::{byte_len, AgentAccounts, IdentityRegistry, Pubkey, ReputationRegistry};
use crate::submit_validation::new_validation;
use crate::update_reputation::{change_of, score_after};

verus! {

/// Registering a fresh agent with an identifier and URI within their bounds
/// succeeds, and looking the agent up afterwards finds it active, at the
/// initial score, with nothing to claim, counted once more in the
/// configuration.
pub proof fn register_then_lookup(
    old: Ledger,
    new: Ledger,
    owner: Pubkey,
    agent_id: String,
    metadata_uri: String,
    now: i64,
    r: Result<(), SPL8004Error>,
)
    requires
        old.wf(),
        new.wf(),
        register_agent_spec(old, new, owner, agent_id, metadata_uri, now, r),
        !old.has_agent(agent_id@),
        byte_len(agent_id@) <= MAX_AGENT_ID_LEN,
        byte_len(metadata_uri@) <= MAX_METADATA_URI_LEN,
        old.config.total_agents < u64::MAX,
    ensures
        r is Ok,
        new.has_agent(agent_id@),
        new.agent(agent_id@).identity.is_active,
        new.agent(agent_id@).identity.owner == owner,
        new.agent(agent_id@).reputation.score == INITIAL_REPUTATION_SCORE,
        new.agent(agent_id@).reward_pool.claimable_amount == 0,
        new.config.total_agents == old.config.total_agents + 1,
{
    new.lemma_agent_index(old.agents@.len() as int);
}

/// Registering an identifier that is already registered fails with
/// `AgentAlreadyRegistered` and changes nothing.
pub proof fn register_duplicate_rejected(
    old: Ledger,
    new: Ledger,
    owner: Pubkey,
    agent_id: String,
    metadata_uri: String,
    now: i64,
    r: Result<(), SPL8004Error>,
)
    requires
        old.wf(),
        old.has_agent(agent_id@),
        register_agent_spec(old, new, owner, agent_id, metadata_uri, now, r),
    ensures
        r == Err::<(), SPL8004Error>(SPL8004Error::AgentAlreadyRegistered),
        new == old,
{
}

/// For every well-formed reputation record, the score change of an approved
/// task is one of +100, +75, +50, +25, that of a rejected task one of -150,
/// -100, -50, and the score after the task stays within [0, 10000].
pub proof fn score_change_in_tiers(rep: ReputationRegistry, approved: bool)
    requires
        rep.wf(),
    ensures
        approved ==> {
            let c = change_of(rep, approved);
            c == 100 || c == 75 || c == 50 || c == 25
        },
        !approved ==> {
            let c = change_of(rep, approved);
            c == -150 || c == -100 || c == -50
        },
        0 <= score_after(rep, approved) <= 10000,
{
}

/// Submitting a second validation of the same task of the same agent fails
/// with `ValidationAlreadyExists`, whoever submits it, and the first
/// validation stays as it was written.
pub proof fn validation_not_replayed(
    l0: Ledger,
    l1: Ledger,
    l2: Ledger,
    agent_id: Seq<char>,
    task_hash: [u8; 32],
    v1: Pubkey,
    approved1: bool,
    evidence1: String,
    t1: i64,
    r1: Result<u64, SPL8004Error>,
    v2: Pubkey,
    approved2: bool,
    evidence2: String,
    t2: i64,
    r2: Result<u64, SPL8004Error>,
)
    requires
        l0.wf(),
        l1.wf(),
        submit_validation_spec(l0, l1, v1, agent_id, task_hash, approved1, evidence1, t1, r1),
        r1 is Ok,
        submit_validation_spec(l1, l2, v2, agent_id, task_hash, approved2, evidence2, t2, r2),
    ensures
        r2 == Err::<u64, SPL8004Error>(SPL8004Error::ValidationAlreadyExists),
        l2 == l1,
        l2.has_validation(agent_id, task_hash@),
        l2.validation(agent_id, task_hash@) == new_validation(
            l0.agent(agent_id).identity.agent_id,
            v1,
            task_hash,
            approved1,
            evidence1,
            t1,
        ),
{
    let n = l0.validations@.len() as int;
    let i0 = l0.agent_index(agent_id);
    assert(l0.agents@[i0].identity.agent_id@ == agent_id);
    assert(l1.agents@[i0] == l0.agents@[i0]);
    l1.lemma_validation_index(n);
}

/// An owner's claim on an active agent fails with `NoRewardsAvailable` when
/// nothing is claimable, with `RewardClaimTooEarly` when something is but the
/// claim interval since the last claim has not passed, and when it succeeds
/// leaves nothing claimable and adds the paid amount to the total claimed.
pub proof fn claim_rules(
    old: Ledger,
    new: Ledger,
    owner: Pubkey,
    agent_id: Seq<char>,
    now: i64,
    r: Result<u64, SPL8004Error>,
)
    requires
        old.wf(),
        new.wf(),
        old.has_agent(agent_id),
        old.agent(agent_id).identity.owner@ == owner@,
        old.agent(agent_id).identity.is_active,
        claim_rewards_spec(old, new, owner, agent_id, now, r),
    ensures
        old.agent(agent_id).reward_pool.claimable_amount == 0 ==> r == Err::<u64, SPL8004Error>(
            SPL8004Error::NoRewardsAvailable,
        ) && new == old,
        old.agent(agent_id).reward_pool.claimable_amount > 0 && now < old.agent(
            agent_id,
        ).reward_pool.last_claim + REWARD_CLAIM_INTERVAL ==> r == Err::<u64, SPL8004Error>(
            SPL8004Error::RewardClaimTooEarly,
        ) && new == old,
        r is Ok ==> {
            &&& r->Ok_0 == old.agent(agent_id).reward_pool.claimable_amount
            &&& new.agent(agent_id).reward_pool.claimable_amount == 0
            &&& new.agent(agent_id).reward_pool.total_claimed == old.agent(
                agent_id,
            ).reward_pool.total_claimed + r->Ok_0
        },
{
    old.lemma_agent(agent_id);
    if r is Ok {
        let i0 = old.agent_index(agent_id);
        assert(old.agents@[i0].identity.agent_id@ == agent_id);
        new.lemma_agent_index(i0);
    }
}

/// Setting the same metadata URI twice leaves that URI in place; the second
/// update changes nothing but the update time.
pub proof fn update_metadata_twice(
    l0: Ledger,
    l1: Ledger,
    l2: Ledger,
    owner: Pubkey,
    agent_id: Seq<char>,
    uri: String,
    t1: i64,
    r1: Result<(), SPL8004Error>,
    t2: i64,
    r2: Result<(), SPL8004Error>,
)
    requires
        l0.wf(),
        l1.wf(),
        l2.wf(),
        update_metadata_spec(l0, l1, owner, agent_id, uri, t1, r1),
        r1 is Ok,
        update_metadata_spec(l1, l2, owner, agent_id, uri, t2, r2),
    ensures
        r2 is Ok,
        l2.agent(agent_id).identity.metadata_uri == uri,
        l2.agent(agent_id) == (AgentAccounts {
            identity: IdentityRegistry { updated_at: t2, ..l1.agent(agent_id).identity },
            ..l1.agent(agent_id)
        }),
        l2.agents@ == l1.agents@.update(l1.agent_index(agent_id), l2.agent(agent_id)),
        l2.config == l1.config,
        l2.validations == l1.validations,
{
    let i0 = l0.agent_index(agent_id);
    assert(l0.agents@[i0].identity.agent_id@ == agent_id);
    l1.lemma_agent_index(i0);
    l2.lemma_agent_index(i0);
}

/// A deactivated agent refuses metadata updates, claims, scoring and a second
/// deactivation: each fails, with `AgentNotActive` when its owner signs, and
/// changes nothing.
pub proof fn deactivated_agent_frozen(
    l: Ledger,
    owner: Pubkey,
    agent_id: Seq<char>,
    uri: String,
    task_hash: Seq<u8>,
    now: i64,
    m: Ledger,
    rm: Result<(), SPL8004Error>,
    c: Ledger,
    rc: Result<u64, SPL8004Error>,
    u: Ledger,
    ru: Result<(), SPL8004Error>,
    d: Ledger,
    rd: Result<(), SPL8004Error>,
)
    requires
        l.wf(),
        l.has_agent(agent_id),
        !l.agent(agent_id).identity.is_active,
        update_metadata_spec(l, m, owner, agent_id, uri, now, rm),
        claim_rewards_spec(l, c, owner, agent_id, now, rc),
        update_reputation_spec(l, u, agent_id, task_hash, now, ru),
        deactivate_agent_spec(l, d, owner, agent_id, now, rd),
    ensures
        rm is Err && m == l,
        rc is Err && c == l,
        ru == Err::<(), SPL8004Error>(SPL8004Error::AgentNotActive) && u == l,
        rd is Err && d == l,
        l.agent(agent_id).identity.owner@ == owner@ ==> {
            &&& rm == Err::<(), SPL8004Error>(SPL8004Error::AgentNotActive)
            &&& rc == Err::<u64, SPL8004Error>(SPL8004Error::AgentNotActive)
            &&& rd == Err::<(), SPL8004Error>(SPL8004Error::AgentNotActive)
        },
{
    l.lemma_agent(agent_id);
}

/// Once its owner has deactivated an agent, a second deactivation fails with
/// `AgentNotActive`.
pub proof fn deactivate_once(
    l0: Ledger,
    l1: Ledger,
    l2: Ledger,
    owner: Pubkey,
    agent_id: Seq<char>,
    t1: i64,
    r1: Result<(), SPL8004Error>,
    t2: i64,
    r2: Result<(), SPL8004Error>,
)
    requires
        l0.wf(),
        l1.wf(),
        deactivate_agent_spec(l0, l1, owner, agent_id, t1, r1),
        r1 is Ok,
        deactivate_agent_spec(l1, l2, owner, agent_id, t2, r2),
    ensures
        r2 == Err::<(), SPL8004Error>(SPL8004Error::AgentNotActive),
        l2 == l1,
{
    let i0 = l0.agent_index(agent_id);
    assert(l0.agents@[i0].identity.agent_id@ == agent_id);
    l1.lemma_agent_index(i0);
}

} // verus!
