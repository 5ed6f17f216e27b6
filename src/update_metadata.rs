use vstd::prelude::*;

use crate::constants::MAX_METADATA_URI_LEN;
use crate::errors::SPL8004Error;
use crate::state::{byte_len, str_byte_len, IdentityRegistry, Pubkey};

verus! {

/// The identity whose metadata changes and the signer asking for it.
pub struct UpdateMetadata {
    pub identity: IdentityRegistry,
    pub owner: Pubkey,
}

/// What replacing the metadata URI of `ctx` by `uri` returns.
pub open spec fn update_metadata_result(ctx: UpdateMetadata, uri: Seq<char>) -> Result<
    (),
    SPL8004Error,
> {
    if ctx.identity.owner@ != ctx.owner@ {
        Err(SPL8004Error::Unauthorized)
    } else if !ctx.identity.is_active {
        Err(SPL8004Error::AgentNotActive)
    } else if byte_len(uri) > MAX_METADATA_URI_LEN {
        Err(SPL8004Error::MetadataUriTooLong)
    } else {
        Ok(())
    }
}

/// Replaces the metadata URI of an active identity and stamps the time; only
/// its owner may.
pub fn handler(ctx: &mut UpdateMetadata, new_metadata_uri: String, now: i64) -> (r: Result<
    (),
    SPL8004Error,
>)
    ensures
        r == update_metadata_result(*old(ctx), new_metadata_uri@),
        r is Ok ==> *final(ctx) == (UpdateMetadata {
            identity: IdentityRegistry {
                metadata_uri: new_metadata_uri,
                updated_at: now,
                ..old(ctx).identity
            },
            ..*old(ctx)
        }),
        r is Err ==> *final(ctx) == *old(ctx),
{
    if !ctx.identity.owner.same(&ctx.owner) {
        return Err(SPL8004Error::Unauthorized);
    }
    if !ctx.identity.is_active {
        return Err(SPL8004Error::AgentNotActive);
    }
    if str_byte_len(&new_metadata_uri) > MAX_METADATA_URI_LEN {
        return Err(SPL8004Error::MetadataUriTooLong);
    }
    ctx.identity.metadata_uri = new_metadata_uri;
    ctx.identity.updated_at = now;
    Ok(())
}

} // verus!
