use vstd::prelude::*;
use vstd::utf8::encode_utf8;

use crate::constants::{BASE_REWARD, MAX_COMMISSION_RATE, MAX_REPUTATION_SCORE};

verus! {

/// A 32-byte public key: the identity of a signer or of an account.
#[derive(Clone, Copy, Debug)]
pub struct Pubkey {
    pub bytes: [u8; 32],
}

impl View for Pubkey {
    type V = Seq<u8>;

    open spec fn view(&self) -> Seq<u8> {
        self.bytes@
    }
}

impl Pubkey {
    pub fn new(bytes: [u8; 32]) -> (r: Pubkey)
        ensures
            r@ == bytes@,
    {
        Pubkey { bytes }
    }

    /// Whether two keys hold the same bytes.
    pub fn same(&self, other: &Pubkey) -> (r: bool)
        ensures
            r == (self@ == other@),
    {
        bytes32_eq(&self.bytes, &other.bytes)
    }
}

impl PartialEq for Pubkey {
    fn eq(&self, other: &Pubkey) -> (r: bool) {
        bytes32_eq(&self.bytes, &other.bytes)
    }
}

impl vstd::std_specs::cmp::PartialEqSpecImpl for Pubkey {
    open spec fn obeys_eq_spec() -> bool {
        true
    }

    open spec fn eq_spec(&self, other: &Pubkey) -> bool {
        self@ == other@
    }
}

impl Eq for Pubkey {
}

/// Compares two 32-byte arrays byte by byte.
pub fn bytes32_eq(a: &[u8; 32], b: &[u8; 32]) -> (r: bool)
    ensures
        r == (a@ == b@),
{
    let mut i: usize = 0;
    while i < 32
        invariant
            0 <= i <= 32,
            a@.len() == 32,
            b@.len() == 32,
            forall|j: int| 0 <= j < i ==> a@[j] == b@[j],
        decreases 32 - i,
    {
        if a[i] != b[i] {
            return false;
        }
        i = i + 1;
    }
    assert(a@ =~= b@);
    true
}

/// Length in bytes of the UTF-8 encoding of a string.
pub open spec fn byte_len(s: Seq<char>) -> nat {
    encode_utf8(s).len()
}

/// Byte length of a string, as stored in a length-prefixed buffer.
pub fn str_byte_len(s: &String) -> (r: usize)
    ensures
        r as nat == byte_len(s@),
{
    s.as_str().as_bytes().len()
}

/// Protocol-wide parameters and counters; one per deployment.
pub struct GlobalConfig {
    pub authority: Pubkey,
    pub treasury: Pubkey,
    /// Commission in basis points of 10000.
    pub commission_rate: u16,
    pub total_agents: u64,
    pub total_validations: u64,
}

impl GlobalConfig {
    pub open spec fn wf(&self) -> bool {
        self.commission_rate <= MAX_COMMISSION_RATE
    }

    pub fn copy(&self) -> (r: GlobalConfig)
        ensures
            r == *self,
    {
        GlobalConfig {
            authority: self.authority,
            treasury: self.treasury,
            commission_rate: self.commission_rate,
            total_agents: self.total_agents,
            total_validations: self.total_validations,
        }
    }
}

/// Identity of one agent: who owns it, what describes it, whether it is active.
pub struct IdentityRegistry {
    pub owner: Pubkey,
    pub agent_id: String,
    pub metadata_uri: String,
    pub created_at: i64,
    pub updated_at: i64,
    pub is_active: bool,
}

impl IdentityRegistry {
    pub open spec fn wf(&self) -> bool {
        &&& byte_len(self.agent_id@) <= 64
        &&& byte_len(self.metadata_uri@) <= 200
    }

    pub fn copy(&self) -> (r: IdentityRegistry)
        ensures
            r == *self,
    {
        IdentityRegistry {
            owner: self.owner,
            agent_id: self.agent_id.clone(),
            metadata_uri: self.metadata_uri.clone(),
            created_at: self.created_at,
            updated_at: self.updated_at,
            is_active: self.is_active,
        }
    }
}

/// Success rate in percent of a record with the given counters; a record
/// with no judged task counts as fully successful.
pub open spec fn rate_of(successful_tasks: int, total_tasks: int) -> int {
    if total_tasks == 0 {
        100
    } else {
        successful_tasks * 100 / total_tasks
    }
}

/// The tiered score change for a task judged at the given success rate.
pub open spec fn score_change_for(rate: int, approved: bool) -> int {
    if approved {
        if 90 <= rate {
            100
        } else if 80 <= rate {
            75
        } else if 70 <= rate {
            50
        } else {
            25
        }
    } else {
        if rate <= 50 {
            -150
        } else if rate <= 70 {
            -100
        } else {
            -50
        }
    }
}

/// Reward multiplier for a score.
pub open spec fn multiplier_for(score: int) -> int {
    if 9000 <= score <= 10000 {
        5
    } else if 8000 <= score <= 8999 {
        4
    } else if 7000 <= score <= 7999 {
        3
    } else if 6000 <= score <= 6999 {
        2
    } else {
        1
    }
}

/// Reward of an approved task that raised the score by `increase` to `score`.
pub open spec fn reward_for(score: int, increase: int) -> int {
    BASE_REWARD * multiplier_for(score) * increase / 100
}

/// A candidate score held within the bounds of a score.
pub open spec fn clamp_score(s: int) -> int {
    if s < 0 {
        0
    } else if s > MAX_REPUTATION_SCORE {
        MAX_REPUTATION_SCORE as int
    } else {
        s
    }
}

proof fn lemma_rate_at_most_100(s: int, t: int)
    requires
        0 <= s <= t,
        0 < t,
    ensures
        0 <= s * 100 / t <= 100,
{
    assert(s * 100 <= t * 100) by (nonlinear_arith)
        requires
            s <= t,
    ;
    assert(0 <= s * 100 / t <= 100) by (nonlinear_arith)
        requires
            0 <= s * 100 <= t * 100,
            t > 0,
    ;
}

/// Score and task counters of one agent.
pub struct ReputationRegistry {
    /// Agent identifier of the identity this record belongs to.
    pub agent: String,
    pub score: u64,
    pub total_tasks: u64,
    pub successful_tasks: u64,
    pub failed_tasks: u64,
    pub last_updated: i64,
    pub stake_amount: u64,
}

impl ReputationRegistry {
    pub open spec fn wf(&self) -> bool {
        &&& self.score <= MAX_REPUTATION_SCORE
        &&& self.total_tasks == self.successful_tasks + self.failed_tasks
    }

    pub open spec fn spec_success_rate(&self) -> int {
        rate_of(self.successful_tasks as int, self.total_tasks as int)
    }

    /// Percentage of judged tasks that were approved, truncated; 100 when
    /// no task has been judged yet.
    pub fn success_rate(&self) -> (r: u8)
        requires
            self.successful_tasks <= self.total_tasks,
        ensures
            r as int == self.spec_success_rate(),
            r <= 100,
    {
        if self.total_tasks == 0 {
            return 100;
        }
        let s = self.successful_tasks as u128;
        let t = self.total_tasks as u128;
        proof {
            lemma_rate_at_most_100(s as int, t as int);
        }
        ((s * 100) / t) as u8
    }

    /// Score change that judging one more task would bring, chosen by the
    /// success rate before that task is counted.
    pub fn calculate_score_change(&self, approved: bool) -> (r: i64)
        requires
            self.successful_tasks <= self.total_tasks,
        ensures
            r as int == score_change_for(self.spec_success_rate(), approved),
            approved ==> (r == 100 || r == 75 || r == 50 || r == 25),
            !approved ==> (r == -150 || r == -100 || r == -50),
    {
        let success_rate = self.success_rate();
        if approved {
            if success_rate >= 90 {
                100
            } else if success_rate >= 80 {
                75
            } else if success_rate >= 70 {
                50
            } else {
                25
            }
        } else {
            if success_rate <= 50 {
                -150
            } else if success_rate <= 70 {
                -100
            } else {
                -50
            }
        }
    }

    pub fn copy(&self) -> (r: ReputationRegistry)
        ensures
            r == *self,
    {
        ReputationRegistry {
            agent: self.agent.clone(),
            score: self.score,
            total_tasks: self.total_tasks,
            successful_tasks: self.successful_tasks,
            failed_tasks: self.failed_tasks,
            last_updated: self.last_updated,
            stake_amount: self.stake_amount,
        }
    }
}

/// One validator's judgment of one task of an agent; never changed once written.
pub struct ValidationRegistry {
    /// Agent identifier of the judged agent.
    pub agent: String,
    pub validator: Pubkey,
    pub task_hash: [u8; 32],
    pub approved: bool,
    pub timestamp: i64,
    pub evidence_uri: String,
}

impl ValidationRegistry {
    pub open spec fn wf(&self) -> bool {
        byte_len(self.evidence_uri@) <= 200
    }

    pub fn copy(&self) -> (r: ValidationRegistry)
        ensures
            r == *self,
    {
        ValidationRegistry {
            agent: self.agent.clone(),
            validator: self.validator,
            task_hash: self.task_hash,
            approved: self.approved,
            timestamp: self.timestamp,
            evidence_uri: self.evidence_uri.clone(),
        }
    }
}

/// Rewards of one agent: what it may claim and what it has claimed.
pub struct RewardPool {
    /// Agent identifier of the identity this pool belongs to.
    pub agent: String,
    pub claimable_amount: u64,
    pub last_claim: i64,
    pub total_claimed: u64,
}

impl RewardPool {
    pub fn copy(&self) -> (r: RewardPool)
        ensures
            r == *self,
    {
        RewardPool {
            agent: self.agent.clone(),
            claimable_amount: self.claimable_amount,
            last_claim: self.last_claim,
            total_claimed: self.total_claimed,
        }
    }
}

/// The three records that every registered agent has.
pub struct AgentAccounts {
    pub identity: IdentityRegistry,
    pub reputation: ReputationRegistry,
    pub reward_pool: RewardPool,
}

impl AgentAccounts {
    /// The records are well formed and all refer to the same agent.
    pub open spec fn wf(&self) -> bool {
        &&& self.identity.wf()
        &&& self.reputation.wf()
        &&& self.reputation.agent == self.identity.agent_id
        &&& self.reward_pool.agent == self.identity.agent_id
    }

    pub fn copy(&self) -> (r: AgentAccounts)
        ensures
            r == *self,
    {
        AgentAccounts {
            identity: self.identity.copy(),
            reputation: self.reputation.copy(),
            reward_pool: self.reward_pool.copy(),
        }
    }
}

} // verus!
