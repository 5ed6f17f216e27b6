use vstd::prelude::*;

use crate::constants::MAX_COMMISSION_RATE;
use crate::errors::SPL8004Error;
use crate::state::{GlobalConfig, Pubkey};

verus! {

/// The signer that creates the configuration and becomes its authority.
pub struct InitializeConfig {
    pub authority: Pubkey,
}

/// Creates the configuration: the signer becomes its authority, the treasury
/// and commission rate are fixed, both counters start at zero. A rate above
/// the maximum is refused.
pub fn handler(ctx: &InitializeConfig, commission_rate: u16, treasury: Pubkey) -> (r: Result<
    GlobalConfig,
    SPL8004Error,
>)
    ensures
        commission_rate > MAX_COMMISSION_RATE ==> r == Err::<GlobalConfig, SPL8004Error>(
            SPL8004Error::InvalidCommissionRate,
        ),
        commission_rate <= MAX_COMMISSION_RATE ==> r == Ok::<GlobalConfig, SPL8004Error>(
            GlobalConfig {
                authority: ctx.authority,
                treasury: treasury,
                commission_rate: commission_rate,
                total_agents: 0,
                total_validations: 0,
            },
        ),
{
    if commission_rate > MAX_COMMISSION_RATE {
        return Err(SPL8004Error::InvalidCommissionRate);
    }
    Ok(
        GlobalConfig {
            authority: ctx.authority,
            treasury,
            commission_rate,
            total_agents: 0,
            total_validations: 0,
        },
    )
}

} // verus!
