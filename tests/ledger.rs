use spl_8004::constants::{INITIAL_REPUTATION_SCORE, REWARD_CLAIM_INTERVAL};
use spl_8004::errors::SPL8004Error;
use spl_8004::ledger::Ledger;
use spl_8004::program::{
    claim_rewards, deactivate_agent, initialize_config, register_agent, submit_validation,
    update_metadata, update_reputation,
};
use spl_8004::state::{Pubkey, ReputationRegistry};
use spl_8004::submit_validation::commission_of;
use spl_8004::update_reputation::calculate_reward;

fn key(b: u8) -> Pubkey {
    Pubkey::new([b; 32])
}

fn s(x: &str) -> String {
    x.to_string()
}

fn ledger_with_agent(rate: u16) -> Ledger {
    let mut l = initialize_config(key(1), rate, key(9)).unwrap();
    register_agent(&mut l, key(2), s("agent-1"), s("uri://a"), 1_000).unwrap();
    l
}

fn rep(score: u64, successful: u64, failed: u64) -> ReputationRegistry {
    ReputationRegistry {
        agent: s("a"),
        score,
        total_tasks: successful + failed,
        successful_tasks: successful,
        failed_tasks: failed,
        last_updated: 0,
        stake_amount: 0,
    }
}

#[test]
fn end_to_end_register_validate_score_claim() {
    let mut l = initialize_config(key(1), 300, key(9)).unwrap();
    assert_eq!(l.config.commission_rate, 300);
    register_agent(&mut l, key(2), s("agent-1"), s("uri://a"), 1_000).unwrap();
    let h = [7u8; 32];
    let commission = submit_validation(&mut l, key(3), &s("agent-1"), h, true, s("uri://e"), 1_100).unwrap();
    assert_eq!(commission, 30_000);
    assert_eq!(l.config.total_validations, 1);
    update_reputation(&mut l, &s("agent-1"), &h, 1_200).unwrap();
    let a = l.get_agent(&s("agent-1")).unwrap();
    assert_eq!(a.reputation.score, 5100);
    assert_eq!(a.reputation.total_tasks, 1);
    assert_eq!(a.reputation.successful_tasks, 1);
    assert_eq!(a.reward_pool.claimable_amount, 100_000);
    let paid = claim_rewards(&mut l, key(2), &s("agent-1"), 1_000 + 86_400).unwrap();
    assert_eq!(paid, 100_000);
    let a = l.get_agent(&s("agent-1")).unwrap();
    assert_eq!(a.reward_pool.claimable_amount, 0);
    assert_eq!(a.reward_pool.total_claimed, 100_000);
    assert_eq!(a.reward_pool.last_claim, 87_400);
}

#[test]
fn register_then_lookup_finds_fresh_agent() {
    let mut l = initialize_config(key(1), 0, key(9)).unwrap();
    assert_eq!(register_agent(&mut l, key(2), s("a"), s("m"), 5), Ok(()));
    let a = l.get_agent(&s("a")).unwrap();
    assert!(a.identity.is_active);
    assert_eq!(a.identity.owner, key(2));
    assert_eq!(a.identity.created_at, 5);
    assert_eq!(a.reputation.score, INITIAL_REPUTATION_SCORE);
    assert_eq!(a.reputation.total_tasks, 0);
    assert_eq!(a.reward_pool.claimable_amount, 0);
    assert_eq!(l.config.total_agents, 1);
    assert!(l.get_agent(&s("b")).is_none());
}

#[test]
fn register_duplicate_fails_and_keeps_state() {
    let mut l = ledger_with_agent(0);
    let r = register_agent(&mut l, key(5), s("agent-1"), s("uri://other"), 2_000);
    assert_eq!(r, Err(SPL8004Error::AgentAlreadyRegistered));
    assert_eq!(l.config.total_agents, 1);
    assert_eq!(l.agents.len(), 1);
    let a = l.get_agent(&s("agent-1")).unwrap();
    assert_eq!(a.identity.metadata_uri, "uri://a");
    assert_eq!(a.identity.owner, key(2));
}

#[test]
fn register_length_bounds() {
    let mut l = initialize_config(key(1), 0, key(9)).unwrap();
    let id64 = "x".repeat(64);
    assert_eq!(register_agent(&mut l, key(2), id64, "u".repeat(200), 0), Ok(()));
    assert_eq!(
        register_agent(&mut l, key(2), "y".repeat(65), s("u"), 0),
        Err(SPL8004Error::AgentIdTooLong)
    );
    assert_eq!(
        register_agent(&mut l, key(2), s("z"), "u".repeat(201), 0),
        Err(SPL8004Error::MetadataUriTooLong)
    );
    // bytes, not characters: 33 two-byte characters are 66 bytes
    assert_eq!(
        register_agent(&mut l, key(2), "é".repeat(33), s("u"), 0),
        Err(SPL8004Error::AgentIdTooLong)
    );
    assert_eq!(l.config.total_agents, 1);
}

#[test]
fn register_counter_overflow() {
    let mut l = initialize_config(key(1), 0, key(9)).unwrap();
    l.config.total_agents = u64::MAX;
    assert_eq!(
        register_agent(&mut l, key(2), s("a"), s("u"), 0),
        Err(SPL8004Error::ArithmeticOverflow)
    );
    assert!(l.get_agent(&s("a")).is_none());
}

#[test]
fn initialize_config_rejects_high_rate() {
    assert!(initialize_config(key(1), 1000, key(9)).is_ok());
    assert_eq!(
        initialize_config(key(1), 1001, key(9)).err(),
        Some(SPL8004Error::InvalidCommissionRate)
    );
    let l = initialize_config(key(1), 0, key(9)).unwrap();
    assert_eq!(l.config.authority, key(1));
    assert_eq!(l.config.treasury, key(9));
    assert_eq!(l.config.total_agents, 0);
    assert_eq!(l.config.total_validations, 0);
}

#[test]
fn score_change_tiers() {
    assert_eq!(rep(5000, 0, 0).success_rate(), 100);
    assert_eq!(rep(5000, 0, 0).calculate_score_change(true), 100);
    assert_eq!(rep(5000, 0, 0).calculate_score_change(false), -50);
    assert_eq!(rep(5000, 9, 1).calculate_score_change(true), 100);
    assert_eq!(rep(5000, 17, 3).calculate_score_change(true), 75);
    assert_eq!(rep(5000, 8, 2).success_rate(), 80);
    assert_eq!(rep(5000, 7, 3).calculate_score_change(true), 50);
    assert_eq!(rep(5000, 69, 31).calculate_score_change(true), 25);
    assert_eq!(rep(5000, 1, 1).calculate_score_change(false), -150);
    assert_eq!(rep(5000, 51, 49).calculate_score_change(false), -100);
    assert_eq!(rep(5000, 7, 3).calculate_score_change(false), -100);
    assert_eq!(rep(5000, 71, 29).calculate_score_change(false), -50);
    assert_eq!(rep(5000, 2, 1).success_rate(), 66);
}

#[test]
fn success_rate_of_large_counters() {
    assert_eq!(rep(0, u64::MAX / 2, u64::MAX / 2).success_rate(), 50);
}

#[test]
fn reward_formula_values() {
    assert_eq!(calculate_reward(5100, 100), 100_000);
    assert_eq!(calculate_reward(6000, 75), 150_000);
    assert_eq!(calculate_reward(7500, 50), 150_000);
    assert_eq!(calculate_reward(8999, 25), 100_000);
    assert_eq!(calculate_reward(9000, 100), 500_000);
    assert_eq!(calculate_reward(10000, 100), 500_000);
    assert_eq!(calculate_reward(5999, 25), 25_000);
}

#[test]
fn commission_values() {
    assert_eq!(commission_of(300), 30_000);
    assert_eq!(commission_of(1000), 100_000);
    assert_eq!(commission_of(1), 100);
    assert_eq!(commission_of(0), 0);
}

#[test]
fn zero_rate_charges_no_commission() {
    let mut l = ledger_with_agent(0);
    assert_eq!(submit_validation(&mut l, key(3), &s("agent-1"), [1; 32], false, s("e"), 0), Ok(0));
}

#[test]
fn score_is_clamped() {
    let mut l = ledger_with_agent(0);
    l.agents[0].reputation.score = 9_990;
    submit_validation(&mut l, key(3), &s("agent-1"), [1; 32], true, s("e"), 0).unwrap();
    update_reputation(&mut l, &s("agent-1"), &[1; 32], 10).unwrap();
    let a = l.get_agent(&s("agent-1")).unwrap();
    assert_eq!(a.reputation.score, 10_000);
    assert_eq!(a.reward_pool.claimable_amount, 500_000);
    assert_eq!(a.reputation.last_updated, 10);

    l.agents[0].reputation.score = 100;
    submit_validation(&mut l, key(3), &s("agent-1"), [2; 32], false, s("e"), 0).unwrap();
    update_reputation(&mut l, &s("agent-1"), &[2; 32], 11).unwrap();
    let a = l.get_agent(&s("agent-1")).unwrap();
    // success rate 100 before the rejected task: -50
    assert_eq!(a.reputation.score, 50);
    assert_eq!(a.reputation.failed_tasks, 1);
    assert_eq!(a.reputation.total_tasks, 2);
    assert_eq!(a.reward_pool.claimable_amount, 500_000);

    submit_validation(&mut l, key(3), &s("agent-1"), [3; 32], false, s("e"), 0).unwrap();
    update_reputation(&mut l, &s("agent-1"), &[3; 32], 12).unwrap();
    // success rate 50: -150, clamped at 0
    assert_eq!(l.get_agent(&s("agent-1")).unwrap().reputation.score, 0);
}

#[test]
fn reward_overflow_rejected() {
    let mut l = ledger_with_agent(0);
    l.agents[0].reward_pool.claimable_amount = u64::MAX - 10;
    submit_validation(&mut l, key(3), &s("agent-1"), [1; 32], true, s("e"), 0).unwrap();
    assert_eq!(
        update_reputation(&mut l, &s("agent-1"), &[1; 32], 5),
        Err(SPL8004Error::ArithmeticOverflow)
    );
    assert_eq!(l.agents[0].reputation.total_tasks, 0);
    assert_eq!(l.agents[0].reputation.score, 5000);
}

#[test]
fn duplicate_validation_rejected() {
    let mut l = ledger_with_agent(300);
    let h = [4u8; 32];
    submit_validation(&mut l, key(3), &s("agent-1"), h, true, s("first"), 10).unwrap();
    let r = submit_validation(&mut l, key(4), &s("agent-1"), h, false, s("second"), 20);
    assert_eq!(r, Err(SPL8004Error::ValidationAlreadyExists));
    assert_eq!(l.config.total_validations, 1);
    let v = l.get_validation(&s("agent-1"), &h).unwrap();
    assert!(v.approved);
    assert_eq!(v.validator, key(3));
    assert_eq!(v.evidence_uri, "first");
    assert_eq!(v.timestamp, 10);
    // another task of the same agent is accepted
    assert!(submit_validation(&mut l, key(4), &s("agent-1"), [5; 32], false, s("x"), 30).is_ok());
}

#[test]
fn validation_errors() {
    let mut l = ledger_with_agent(300);
    assert_eq!(
        submit_validation(&mut l, key(3), &s("nobody"), [1; 32], true, s("e"), 0),
        Err(SPL8004Error::RecordNotFound)
    );
    assert_eq!(
        submit_validation(&mut l, key(3), &s("agent-1"), [1; 32], true, "e".repeat(201), 0),
        Err(SPL8004Error::EvidenceUriTooLong)
    );
    assert_eq!(
        update_reputation(&mut l, &s("agent-1"), &[1; 32], 0),
        Err(SPL8004Error::RecordNotFound)
    );
    assert_eq!(l.config.total_validations, 0);
}

#[test]
fn claim_rules_in_order() {
    let mut l = ledger_with_agent(0);
    assert_eq!(
        claim_rewards(&mut l, key(2), &s("agent-1"), 1_000_000),
        Err(SPL8004Error::NoRewardsAvailable)
    );
    submit_validation(&mut l, key(3), &s("agent-1"), [1; 32], true, s("e"), 0).unwrap();
    update_reputation(&mut l, &s("agent-1"), &[1; 32], 5).unwrap();
    assert_eq!(
        claim_rewards(&mut l, key(5), &s("agent-1"), 1_000_000),
        Err(SPL8004Error::Unauthorized)
    );
    assert_eq!(
        claim_rewards(&mut l, key(2), &s("agent-1"), 1_000 + REWARD_CLAIM_INTERVAL - 1),
        Err(SPL8004Error::RewardClaimTooEarly)
    );
    assert_eq!(l.agents[0].reward_pool.claimable_amount, 100_000);
    assert_eq!(claim_rewards(&mut l, key(2), &s("agent-1"), 1_000 + REWARD_CLAIM_INTERVAL), Ok(100_000));
    assert_eq!(l.agents[0].reward_pool.claimable_amount, 0);
    assert_eq!(l.agents[0].reward_pool.total_claimed, 100_000);
    assert_eq!(
        claim_rewards(&mut l, key(2), &s("agent-1"), 1_000 + 2 * REWARD_CLAIM_INTERVAL),
        Err(SPL8004Error::NoRewardsAvailable)
    );
}

#[test]
fn claim_total_overflow() {
    let mut l = ledger_with_agent(0);
    l.agents[0].reward_pool.claimable_amount = 10;
    l.agents[0].reward_pool.total_claimed = u64::MAX - 5;
    assert_eq!(
        claim_rewards(&mut l, key(2), &s("agent-1"), i64::MAX),
        Err(SPL8004Error::ArithmeticOverflow)
    );
    assert_eq!(l.agents[0].reward_pool.claimable_amount, 10);
}

#[test]
fn update_metadata_twice_same_uri() {
    let mut l = ledger_with_agent(0);
    assert_eq!(update_metadata(&mut l, key(2), &s("agent-1"), s("uri://x"), 2_000), Ok(()));
    assert_eq!(update_metadata(&mut l, key(2), &s("agent-1"), s("uri://x"), 3_000), Ok(()));
    let a = l.get_agent(&s("agent-1")).unwrap();
    assert_eq!(a.identity.metadata_uri, "uri://x");
    assert_eq!(a.identity.updated_at, 3_000);
    assert_eq!(a.identity.created_at, 1_000);
    assert_eq!(l.config.total_agents, 1);
}

#[test]
fn update_metadata_errors() {
    let mut l = ledger_with_agent(0);
    assert_eq!(
        update_metadata(&mut l, key(5), &s("agent-1"), s("u"), 0),
        Err(SPL8004Error::Unauthorized)
    );
    assert_eq!(
        update_metadata(&mut l, key(2), &s("agent-1"), "u".repeat(201), 0),
        Err(SPL8004Error::MetadataUriTooLong)
    );
    assert_eq!(
        update_metadata(&mut l, key(2), &s("nobody"), s("u"), 0),
        Err(SPL8004Error::RecordNotFound)
    );
    assert_eq!(l.get_agent(&s("agent-1")).unwrap().identity.metadata_uri, "uri://a");
}

#[test]
fn deactivated_agent_rejects_everything() {
    let mut l = ledger_with_agent(0);
    submit_validation(&mut l, key(3), &s("agent-1"), [1; 32], true, s("e"), 0).unwrap();
    assert_eq!(deactivate_agent(&mut l, key(5), &s("agent-1"), 50), Err(SPL8004Error::Unauthorized));
    assert_eq!(deactivate_agent(&mut l, key(2), &s("agent-1"), 50), Ok(()));
    let a = l.get_agent(&s("agent-1")).unwrap();
    assert!(!a.identity.is_active);
    assert_eq!(a.identity.updated_at, 50);
    assert_eq!(
        update_metadata(&mut l, key(2), &s("agent-1"), s("u"), 60),
        Err(SPL8004Error::AgentNotActive)
    );
    assert_eq!(
        update_reputation(&mut l, &s("agent-1"), &[1; 32], 60),
        Err(SPL8004Error::AgentNotActive)
    );
    assert_eq!(
        claim_rewards(&mut l, key(2), &s("agent-1"), 1_000_000),
        Err(SPL8004Error::AgentNotActive)
    );
    assert_eq!(
        submit_validation(&mut l, key(3), &s("agent-1"), [2; 32], true, s("e"), 60),
        Err(SPL8004Error::AgentNotActive)
    );
    assert_eq!(deactivate_agent(&mut l, key(2), &s("agent-1"), 70), Err(SPL8004Error::AgentNotActive));
    assert_eq!(l.get_agent(&s("agent-1")).unwrap().identity.updated_at, 50);
}

#[test]
fn error_messages() {
    assert_eq!(SPL8004Error::NoRewardsAvailable.message(), "No rewards available to claim");
    assert_eq!(SPL8004Error::AgentAlreadyRegistered.message(), "Agent already registered");
}
