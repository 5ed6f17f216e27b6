use vstd::prelude::*;

use crate::state::{bytes32_eq, AgentAccounts, GlobalConfig, ValidationRegistry};

verus! {

/// The record store of one deployment: the configuration, the records of
/// every registered agent, and every validation. Agents are addressed by
/// their identifier and validations by their agent and task hash; at most one
/// record stands at each address.
pub struct Ledger {
    pub config: GlobalConfig,
    pub agents: Vec<AgentAccounts>,
    pub validations: Vec<ValidationRegistry>,
}

impl Ledger {
    /// Every record is well formed, and no two records share an address.
    pub open spec fn wf(&self) -> bool {
        &&& self.config.wf()
        &&& forall|i: int| 0 <= i < self.agents@.len() ==> #[trigger] self.agents@[i].wf()
        &&& forall|i: int, j: int|
            0 <= i < self.agents@.len() && 0 <= j < self.agents@.len() && i != j
                ==> #[trigger] self.agents@[i].identity.agent_id@
                != #[trigger] self.agents@[j].identity.agent_id@
        &&& forall|i: int| 0 <= i < self.validations@.len() ==> #[trigger] self.validations@[i].wf()
        &&& forall|i: int, j: int|
            0 <= i < self.validations@.len() && 0 <= j < self.validations@.len() && i != j
                ==> !(#[trigger] self.validations@[i].agent@ == #[trigger] self.validations@[j].agent@
                && self.validations@[i].task_hash@ == self.validations@[j].task_hash@)
    }

    /// Whether an agent with this identifier is registered.
    pub open spec fn has_agent(&self, id: Seq<char>) -> bool {
        exists|i: int| 0 <= i < self.agents@.len() && #[trigger] self.agents@[i].identity.agent_id@ == id
    }

    /// Position of the agent with this identifier.
    pub open spec fn agent_index(&self, id: Seq<char>) -> int {
        choose|i: int| 0 <= i < self.agents@.len() && #[trigger] self.agents@[i].identity.agent_id@ == id
    }

    /// Records of the agent with this identifier.
    pub open spec fn agent(&self, id: Seq<char>) -> AgentAccounts {
        self.agents@[self.agent_index(id)]
    }

    /// Whether a validation of task `task_hash` of agent `id` has been written.
    pub open spec fn has_validation(&self, id: Seq<char>, task_hash: Seq<u8>) -> bool {
        exists|i: int|
            0 <= i < self.validations@.len() && #[trigger] self.validations@[i].agent@ == id
                && self.validations@[i].task_hash@ == task_hash
    }

    /// Position of the validation of task `task_hash` of agent `id`.
    pub open spec fn validation_index(&self, id: Seq<char>, task_hash: Seq<u8>) -> int {
        choose|i: int|
            0 <= i < self.validations@.len() && #[trigger] self.validations@[i].agent@ == id
                && self.validations@[i].task_hash@ == task_hash
    }

    /// The validation of task `task_hash` of agent `id`.
    pub open spec fn validation(&self, id: Seq<char>, task_hash: Seq<u8>) -> ValidationRegistry {
        self.validations@[self.validation_index(id, task_hash)]
    }

    /// The agent at position `i` is the one with its identifier.
    pub proof fn lemma_agent_index(&self, i: int)
        requires
            self.wf(),
            0 <= i < self.agents@.len(),
        ensures
            self.has_agent(self.agents@[i].identity.agent_id@),
            self.agent_index(self.agents@[i].identity.agent_id@) == i,
    {
        let id = self.agents@[i].identity.agent_id@;
        assert(self.agents@[i].identity.agent_id@ == id);
        let j = self.agent_index(id);
        assert(self.agents@[j].identity.agent_id@ == id);
    }

    /// The agent with a registered identifier is well formed and carries it.
    pub proof fn lemma_agent(&self, id: Seq<char>)
        requires
            self.wf(),
            self.has_agent(id),
        ensures
            0 <= self.agent_index(id) < self.agents@.len(),
            self.agent(id).wf(),
            self.agent(id).identity.agent_id@ == id,
            self.agent(id).reputation.agent@ == id,
            self.agent(id).reward_pool.agent@ == id,
    {
        assert(self.agents@[self.agent_index(id)].wf());
    }

    /// The validation at position `i` is the one with its address.
    pub proof fn lemma_validation_index(&self, i: int)
        requires
            self.wf(),
            0 <= i < self.validations@.len(),
        ensures
            self.has_validation(self.validations@[i].agent@, self.validations@[i].task_hash@),
            self.validation_index(self.validations@[i].agent@, self.validations@[i].task_hash@)
                == i,
    {
        let id = self.validations@[i].agent@;
        let h = self.validations@[i].task_hash@;
        assert(self.validations@[i].agent@ == id);
        let j = self.validation_index(id, h);
        assert(self.validations@[j].agent@ == id);
    }

    /// Position of the agent with this identifier, if it is registered.
    pub fn find_agent(&self, agent_id: &String) -> (r: Option<usize>)
        requires
            self.wf(),
        ensures
            match r {
                Some(i) => self.has_agent(agent_id@) && i == self.agent_index(agent_id@)
                    && i < self.agents@.len(),
                None => !self.has_agent(agent_id@),
            },
    {
        let mut i: usize = 0;
        while i < self.agents.len()
            invariant
                self.wf(),
                0 <= i <= self.agents@.len(),
                forall|j: int| 0 <= j < i ==> #[trigger] self.agents@[j].identity.agent_id@ != agent_id@,
            decreases self.agents@.len() - i,
        {
            if self.agents[i].identity.agent_id == *agent_id {
                proof {
                    self.lemma_agent_index(i as int);
                }
                return Some(i);
            }
            i = i + 1;
        }
        None
    }

    /// Position of the validation of task `task_hash` of agent `agent_id`, if it was written.
    pub fn find_validation(&self, agent_id: &String, task_hash: &[u8; 32]) -> (r: Option<usize>)
        requires
            self.wf(),
        ensures
            match r {
                Some(i) => self.has_validation(agent_id@, task_hash@) && i == self.validation_index(
                    agent_id@,
                    task_hash@,
                ) && i < self.validations@.len(),
                None => !self.has_validation(agent_id@, task_hash@),
            },
    {
        let mut i: usize = 0;
        while i < self.validations.len()
            invariant
                self.wf(),
                0 <= i <= self.validations@.len(),
                forall|j: int|
                    0 <= j < i ==> !(#[trigger] self.validations@[j].agent@ == agent_id@
                        && self.validations@[j].task_hash@ == task_hash@),
            decreases self.validations@.len() - i,
        {
            if self.validations[i].agent == *agent_id && bytes32_eq(
                &self.validations[i].task_hash,
                task_hash,
            ) {
                proof {
                    self.lemma_validation_index(i as int);
                }
                return Some(i);
            }
            i = i + 1;
        }
        None
    }

    /// Writes back the records of the agent at position `i`, which keep their
    /// identifier.
    pub fn store_agent(&mut self, i: usize, rec: AgentAccounts)
        requires
            old(self).wf(),
            i < old(self).agents@.len(),
            rec.wf(),
            rec.identity.agent_id@ == old(self).agents@[i as int].identity.agent_id@,
        ensures
            final(self).wf(),
            final(self).config == old(self).config,
            final(self).validations == old(self).validations,
            final(self).agents@ == old(self).agents@.update(i as int, rec),
    {
        self.agents.set(i, rec);
        proof {
            assert forall|a: int, b: int|
                0 <= a < self.agents@.len() && 0 <= b < self.agents@.len() && a != b
                    implies #[trigger] self.agents@[a].identity.agent_id@
                    != #[trigger] self.agents@[b].identity.agent_id@ by {
                assert(old(self).agents@[a].identity.agent_id@ == self.agents@[a].identity.agent_id@);
                assert(old(self).agents@[b].identity.agent_id@ == self.agents@[b].identity.agent_id@);
            }
        }
    }

    /// Records of the agent with this identifier, if it is registered.
    pub fn get_agent(&self, agent_id: &String) -> (r: Option<&AgentAccounts>)
        requires
            self.wf(),
        ensures
            match r {
                Some(a) => self.has_agent(agent_id@) && *a == self.agent(agent_id@),
                None => !self.has_agent(agent_id@),
            },
    {
        match self.find_agent(agent_id) {
            Some(i) => Some(&self.agents[i]),
            None => None,
        }
    }

    /// The validation of task `task_hash` of agent `agent_id`, if it was written.
    pub fn get_validation(&self, agent_id: &String, task_hash: &[u8; 32]) -> (r: Option<&ValidationRegistry>)
        requires
            self.wf(),
        ensures
            match r {
                Some(v) => self.has_validation(agent_id@, task_hash@) && *v == self.validation(
                    agent_id@,
                    task_hash@,
                ),
                None => !self.has_validation(agent_id@, task_hash@),
            },
    {
        match self.find_validation(agent_id, task_hash) {
            Some(i) => Some(&self.validations[i]),
            None => None,
        }
    }
}

} // verus!
