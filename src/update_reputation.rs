use vstd::prelude::*;

use crate::constants::{BASE_REWARD, MAX_REPUTATION_SCORE};
use crate::errors::SPL8004Error;
use crate::state::{
    clamp_score, multiplier_for, reward_for, score_change_for, IdentityRegistry,
    ReputationRegistry, RewardPool, ValidationRegistry,
};

verus! {

/// The records that scoring one validation reads and writes.
pub struct UpdateReputation {
    pub reputation: ReputationRegistry,
    pub agent: IdentityRegistry,
    pub validation: ValidationRegistry,
    pub reward_pool: RewardPool,
}

/// Score change that judging a task brings to a reputation record.
pub open spec fn change_of(rep: ReputationRegistry, approved: bool) -> int {
    score_change_for(rep.spec_success_rate(), approved)
}

/// Score of a reputation record after one more judged task.
pub open spec fn score_after(rep: ReputationRegistry, approved: bool) -> int {
    clamp_score(rep.score + change_of(rep, approved))
}

/// Reward that one judged task adds to the agent's pool: nothing on rejection.
pub open spec fn reward_of(rep: ReputationRegistry, approved: bool) -> int {
    if approved {
        reward_for(score_after(rep, approved), change_of(rep, approved))
    } else {
        0
    }
}

/// A reputation record after one more task, judged `approved`, at time `now`.
pub open spec fn reputation_after(
    rep: ReputationRegistry,
    approved: bool,
    now: i64,
) -> ReputationRegistry {
    ReputationRegistry {
        agent: rep.agent,
        score: score_after(rep, approved) as u64,
        total_tasks: (rep.total_tasks + 1) as u64,
        successful_tasks: if approved {
            (rep.successful_tasks + 1) as u64
        } else {
            rep.successful_tasks
        },
        failed_tasks: if approved {
            rep.failed_tasks
        } else {
            (rep.failed_tasks + 1) as u64
        },
        last_updated: now,
        stake_amount: rep.stake_amount,
    }
}

/// What scoring the validation of `ctx` returns.
pub open spec fn update_reputation_result(ctx: UpdateReputation) -> Result<(), SPL8004Error> {
    if ctx.reputation.agent@ != ctx.agent.agent_id@ || ctx.validation.agent@ != ctx.agent.agent_id@
        || ctx.reward_pool.agent@ != ctx.agent.agent_id@ {
        Err(SPL8004Error::RecordMismatch)
    } else if !ctx.agent.is_active {
        Err(SPL8004Error::AgentNotActive)
    } else if ctx.reputation.total_tasks == u64::MAX {
        Err(SPL8004Error::ArithmeticOverflow)
    } else if ctx.reward_pool.claimable_amount + reward_of(
        ctx.reputation,
        ctx.validation.approved,
    ) > u64::MAX {
        Err(SPL8004Error::ArithmeticOverflow)
    } else {
        Ok(())
    }
}

/// The context after the validation of `ctx` was scored at time `now`.
pub open spec fn update_reputation_post(ctx: UpdateReputation, now: i64) -> UpdateReputation {
    UpdateReputation {
        reputation: reputation_after(ctx.reputation, ctx.validation.approved, now),
        reward_pool: RewardPool {
            claimable_amount: (ctx.reward_pool.claimable_amount + reward_of(
                ctx.reputation,
                ctx.validation.approved,
            )) as u64,
            ..ctx.reward_pool
        },
        ..ctx
    }
}

/// Reward of a task that raised the score by `score_increase` to
/// `current_score`: the base reward, times the multiplier of the score, times
/// the increase in hundredths.
pub fn calculate_reward(current_score: u64, score_increase: u64) -> (r: u64)
    requires
        score_increase <= 100,
    ensures
        r as int == reward_for(current_score as int, score_increase as int),
{
    let score_multiplier: u64 = if 9000 <= current_score && current_score <= 10000 {
        5
    } else if 8000 <= current_score && current_score <= 8999 {
        4
    } else if 7000 <= current_score && current_score <= 7999 {
        3
    } else if 6000 <= current_score && current_score <= 6999 {
        2
    } else {
        1
    };
    assert(score_multiplier == multiplier_for(current_score as int));
    assert(BASE_REWARD * score_multiplier * score_increase <= 100_000 * 5 * 100) by (nonlinear_arith)
        requires
            score_multiplier <= 5,
            score_increase <= 100,
            BASE_REWARD == 100_000,
    ;
    BASE_REWARD * score_multiplier * score_increase / 100
}

/// Scores the validation of `ctx` against its agent: counts the task, moves
/// the score by the tiered change and, on approval, adds the reward to the
/// agent's pool. On any failure the context is left as it was.
pub fn handler(ctx: &mut UpdateReputation, now: i64) -> (r: Result<(), SPL8004Error>)
    requires
        old(ctx).reputation.wf(),
    ensures
        r == update_reputation_result(*old(ctx)),
        r is Ok ==> *final(ctx) == update_reputation_post(*old(ctx), now),
        r is Err ==> *final(ctx) == *old(ctx),
        final(ctx).reputation.wf(),
{
    if ctx.reputation.agent != ctx.agent.agent_id || ctx.validation.agent != ctx.agent.agent_id
        || ctx.reward_pool.agent != ctx.agent.agent_id {
        return Err(SPL8004Error::RecordMismatch);
    }
    if !ctx.agent.is_active {
        return Err(SPL8004Error::AgentNotActive);
    }
    let approved = ctx.validation.approved;
    let score_change = ctx.reputation.calculate_score_change(approved);
    let total_tasks = match ctx.reputation.total_tasks.checked_add(1) {
        Some(t) => t,
        None => return Err(SPL8004Error::ArithmeticOverflow),
    };
    let moved: i64 = ctx.reputation.score as i64 + score_change;
    let new_score: u64 = if moved < 0 {
        0
    } else if moved > MAX_REPUTATION_SCORE as i64 {
        MAX_REPUTATION_SCORE
    } else {
        moved as u64
    };
    if approved {
        let reward = calculate_reward(new_score, score_change as u64);
        let claimable = match ctx.reward_pool.claimable_amount.checked_add(reward) {
            Some(c) => c,
            None => return Err(SPL8004Error::ArithmeticOverflow),
        };
        ctx.reputation.successful_tasks = ctx.reputation.successful_tasks + 1;
        ctx.reward_pool.claimable_amount = claimable;
    } else {
        ctx.reputation.failed_tasks = ctx.reputation.failed_tasks + 1;
    }
    ctx.reputation.total_tasks = total_tasks;
    ctx.reputation.score = new_score;
    ctx.reputation.last_updated = now;
    Ok(())
}

} // verus!
