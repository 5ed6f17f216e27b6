use vstd::prelude::*;

use crate::errors::SPL8004Error;
use crate::state::{IdentityRegistry, Pubkey};

verus! {

/// The identity to deactivate and the signer asking for it.
pub struct DeactivateAgent {
    pub identity: IdentityRegistry,
    pub owner: Pubkey,
}

/// What deactivating the identity of `ctx` returns.
pub open spec fn deactivate_result(ctx: DeactivateAgent) -> Result<(), SPL8004Error> {
    if ctx.identity.owner@ != ctx.owner@ {
        Err(SPL8004Error::Unauthorized)
    } else if !ctx.identity.is_active {
        Err(SPL8004Error::AgentNotActive)
    } else {
        Ok(())
    }
}

/// Marks the identity inactive for good; only its owner may, and only once.
pub fn handler(ctx: &mut DeactivateAgent, now: i64) -> (r: Result<(), SPL8004Error>)
    ensures
        r == deactivate_result(*old(ctx)),
        r is Ok ==> *final(ctx) == (DeactivateAgent {
            identity: IdentityRegistry { is_active: false, updated_at: now, ..old(ctx).identity },
            ..*old(ctx)
        }),
        r is Err ==> *final(ctx) == *old(ctx),
{
    if !ctx.identity.owner.same(&ctx.owner) {
        return Err(SPL8004Error::Unauthorized);
    }
    if !ctx.identity.is_active {
        return Err(SPL8004Error::AgentNotActive);
    }
    ctx.identity.is_active = false;
    ctx.identity.updated_at = now;
    Ok(())
}

} // verus!
