use vstd::prelude::*;

use crate::constants::{MAX_EVIDENCE_URI_LEN, VALIDATION_FEE};
use crate::errors::SPL8004Error;
use crate::state::{byte_len, str_byte_len, GlobalConfig, IdentityRegistry, Pubkey, ValidationRegistry};

verus! {

/// The judged agent, the judging signer and the configuration that counts
/// validations and sets the commission.
pub struct SubmitValidation {
    pub agent: IdentityRegistry,
    pub validator: Pubkey,
    pub config: GlobalConfig,
}

/// Commission on one validation at `rate` basis points: that fraction of the
/// validation fee, rounded down.
pub open spec fn commission_for(rate: int) -> int {
    VALIDATION_FEE * rate / 10000
}

/// Whether submitting a validation with this evidence fails, and how.
pub open spec fn submit_error(ctx: SubmitValidation, evidence_uri: Seq<char>) -> Option<SPL8004Error> {
    if !ctx.agent.is_active {
        Some(SPL8004Error::AgentNotActive)
    } else if byte_len(evidence_uri) > MAX_EVIDENCE_URI_LEN {
        Some(SPL8004Error::EvidenceUriTooLong)
    } else if ctx.config.total_validations == u64::MAX {
        Some(SPL8004Error::ArithmeticOverflow)
    } else {
        None
    }
}

/// The validation record that `validator` writes for `agent` at time `now`.
pub open spec fn new_validation(
    agent: String,
    validator: Pubkey,
    task_hash: [u8; 32],
    approved: bool,
    evidence_uri: String,
    now: i64,
) -> ValidationRegistry {
    ValidationRegistry {
        agent: agent,
        validator: validator,
        task_hash: task_hash,
        approved: approved,
        timestamp: now,
        evidence_uri: evidence_uri,
    }
}

/// Commission due on one validation at `commission_rate` basis points,
/// computed in 128 bits and narrowed.
pub fn commission_of(commission_rate: u16) -> (r: u64)
    ensures
        r as int == commission_for(commission_rate as int),
{
    let fee = VALIDATION_FEE as u128;
    let rate = commission_rate as u128;
    assert(fee * rate <= 1_000_000 * 65535) by (nonlinear_arith)
        requires
            fee == 1_000_000,
            rate <= 65535,
    ;
    let wide: u128 = fee * rate / 10000;
    assert(wide <= VALIDATION_FEE * 65535 / 10000) by (nonlinear_arith)
        requires
            wide == VALIDATION_FEE * commission_rate / 10000,
            commission_rate <= 65535,
            VALIDATION_FEE == 1_000_000,
    ;
    wide as u64
}

/// Writes the judgment of one task of an active agent and counts it. Returns
/// the record and the commission that the host moves from the validator to the
/// treasury (none when the rate is zero).
pub fn handler(
    ctx: &mut SubmitValidation,
    task_hash: [u8; 32],
    approved: bool,
    evidence_uri: String,
    now: i64,
) -> (r: Result<(ValidationRegistry, u64), SPL8004Error>)
    ensures
        match submit_error(*old(ctx), evidence_uri@) {
            Some(e) => r == Err::<(ValidationRegistry, u64), SPL8004Error>(e) && *final(ctx) == *old(ctx),
            None => r == Ok::<(ValidationRegistry, u64), SPL8004Error>((
                new_validation(old(ctx).agent.agent_id, old(ctx).validator, task_hash, approved, evidence_uri, now),
                commission_for(old(ctx).config.commission_rate as int) as u64,
            )) && *final(ctx) == (SubmitValidation {
                config: GlobalConfig {
                    total_validations: (old(ctx).config.total_validations + 1) as u64,
                    ..old(ctx).config
                },
                ..*old(ctx)
            }),
        },
{
    if !ctx.agent.is_active {
        return Err(SPL8004Error::AgentNotActive);
    }
    if str_byte_len(&evidence_uri) > MAX_EVIDENCE_URI_LEN {
        return Err(SPL8004Error::EvidenceUriTooLong);
    }
    let total_validations = match ctx.config.total_validations.checked_add(1) {
        Some(t) => t,
        None => return Err(SPL8004Error::ArithmeticOverflow),
    };
    ctx.config.total_validations = total_validations;
    let validation = ValidationRegistry {
        agent: ctx.agent.agent_id.clone(),
        validator: ctx.validator,
        task_hash,
        approved,
        timestamp: now,
        evidence_uri,
    };
    let commission: u64 = if ctx.config.commission_rate > 0 {
        commission_of(ctx.config.commission_rate)
    } else {
        0
    };
    Ok((validation, commission))
}

} // verus!
