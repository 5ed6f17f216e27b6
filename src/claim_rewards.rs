use vstd::prelude::*;

use crate::constants::REWARD_CLAIM_INTERVAL;
use crate::errors::SPL8004Error;
use crate::state::{IdentityRegistry, Pubkey, RewardPool};

verus! {

/// The identity and pool whose rewards are claimed, and the claiming signer.
pub struct ClaimRewards {
    pub identity: IdentityRegistry,
    pub reward_pool: RewardPool,
    pub owner: Pubkey,
}

/// What claiming the rewards of `ctx` at time `now` returns: on success, the
/// amount that moves from the pool to the owner.
pub open spec fn claim_result(ctx: ClaimRewards, now: i64) -> Result<u64, SPL8004Error> {
    if ctx.reward_pool.agent@ != ctx.identity.agent_id@ {
        Err(SPL8004Error::RecordMismatch)
    } else if ctx.identity.owner@ != ctx.owner@ {
        Err(SPL8004Error::Unauthorized)
    } else if !ctx.identity.is_active {
        Err(SPL8004Error::AgentNotActive)
    } else if ctx.reward_pool.claimable_amount == 0 {
        Err(SPL8004Error::NoRewardsAvailable)
    } else if now < ctx.reward_pool.last_claim + REWARD_CLAIM_INTERVAL {
        Err(SPL8004Error::RewardClaimTooEarly)
    } else if ctx.reward_pool.total_claimed + ctx.reward_pool.claimable_amount > u64::MAX {
        Err(SPL8004Error::ArithmeticOverflow)
    } else {
        Ok(ctx.reward_pool.claimable_amount)
    }
}

/// The pool after a successful claim at time `now`.
pub open spec fn pool_after_claim(pool: RewardPool, now: i64) -> RewardPool {
    RewardPool {
        claimable_amount: 0,
        total_claimed: (pool.total_claimed + pool.claimable_amount) as u64,
        last_claim: now,
        ..pool
    }
}

/// Claims the whole claimable amount of an active agent for its owner, at
/// most once per claim interval. Returns the amount that the host moves from
/// the pool to the owner; the pool records it as claimed.
pub fn handler(ctx: &mut ClaimRewards, now: i64) -> (r: Result<u64, SPL8004Error>)
    ensures
        r == claim_result(*old(ctx), now),
        r is Ok ==> *final(ctx) == (ClaimRewards {
            reward_pool: pool_after_claim(old(ctx).reward_pool, now),
            ..*old(ctx)
        }),
        r is Err ==> *final(ctx) == *old(ctx),
{
    if ctx.reward_pool.agent != ctx.identity.agent_id {
        return Err(SPL8004Error::RecordMismatch);
    }
    if !ctx.identity.owner.same(&ctx.owner) {
        return Err(SPL8004Error::Unauthorized);
    }
    if !ctx.identity.is_active {
        return Err(SPL8004Error::AgentNotActive);
    }
    if ctx.reward_pool.claimable_amount == 0 {
        return Err(SPL8004Error::NoRewardsAvailable);
    }
    if (now as i128) < ctx.reward_pool.last_claim as i128 + REWARD_CLAIM_INTERVAL as i128 {
        return Err(SPL8004Error::RewardClaimTooEarly);
    }
    let amount = ctx.reward_pool.claimable_amount;
    let total_claimed = match ctx.reward_pool.total_claimed.checked_add(amount) {
        Some(t) => t,
        None => return Err(SPL8004Error::ArithmeticOverflow),
    };
    ctx.reward_pool.total_claimed = total_claimed;
    ctx.reward_pool.claimable_amount = 0;
    ctx.reward_pool.last_claim = now;
    Ok(amount)
}

} // verus!
