use vstd::prelude::*;
use vstd::pervasive::VecAdditionalExecFns;
use crate::errors::FlowError;
use crate::message::id_eq;
use crate::state::{AccountId, Vault};

verus! {

/// Whether some stored vault belongs to `agent`.
pub open spec fn has_vault(s: Seq<Vault>, agent: Seq<u8>) -> bool {
    exists|i: int| 0 <= i < s.len() && s[i].agent@ == agent
}

/// The index of the vault belonging to `agent`; meaningful only when
/// `has_vault` holds and agents are unique.
pub open spec fn vault_index(s: Seq<Vault>, agent: Seq<u8>) -> int {
    choose|i: int| 0 <= i < s.len() && s[i].agent@ == agent
}

/// The stored vault belonging to `agent`.
pub open spec fn vault_of(s: Seq<Vault>, agent: Seq<u8>) -> Vault {
    s[vault_index(s, agent)]
}

/// Keyed storage of vaults, exactly one per agent while active.
pub struct VaultStore {
    /// The active vaults, in creation order.
    pub entries: Vec<Vault>,
}

impl VaultStore {
    /// No two vaults share an agent, and every stored vault is well formed.
    pub open spec fn wf(self) -> bool {
        &&& forall|i: int, j: int|
            0 <= i < j < self.entries@.len() ==> self.entries@[i].agent@
                != self.entries@[j].agent@
        &&& forall|i: int| 0 <= i < self.entries@.len() ==> (#[trigger] self.entries@[i]).wf()
    }

    /// An empty store.
    pub fn new() -> (s: VaultStore)
        ensures
            s.entries@.len() == 0,
            s.wf(),
    {
        VaultStore { entries: Vec::new() }
    }

    /// Finds the vault belonging to `agent`, if one is active.
    pub fn find_index(&self, agent: &AccountId) -> (r: Option<usize>)
        ensures
            match r {
                Some(i) => i < self.entries@.len() && self.entries@[i as int].agent@ == agent@
                    && (self.wf() ==> i as int == vault_index(self.entries@, agent@)),
                None => !has_vault(self.entries@, agent@),
            },
    {
        let mut i: usize = 0;
        while i < self.entries.len()
            invariant
                i <= self.entries@.len(),
                forall|j: int| 0 <= j < i ==> self.entries@[j].agent@ != agent@,
            decreases self.entries@.len() - i,
        {
            if id_eq(&self.entries[i].agent, agent) {
                return Some(i);
            }
            i = i + 1;
        }
        None
    }

    /// Stores a new vault; rejected if its agent already has one.
    pub fn insert(&mut self, v: Vault) -> (r: Result<(), FlowError>)
        requires
            old(self).wf(),
            v.wf(),
        ensures
            final(self).wf(),
            match r {
                Ok(()) => !has_vault(old(self).entries@, v.agent@) && final(self).entries@
                    == old(self).entries@.push(v),
                Err(e) => e == FlowError::AlreadyExists && has_vault(old(self).entries@, v.agent@)
                    && *final(self) == *old(self),
            },
    {
        if self.find_index(&v.agent).is_some() {
            return Err(FlowError::AlreadyExists);
        }
        self.entries.push(v);
        Ok(())
    }

    /// Replaces the vault at `i` with `v`, which must keep the same agent.
    pub fn update(&mut self, i: usize, v: Vault)
        requires
            old(self).wf(),
            i < old(self).entries@.len(),
            v.agent@ == old(self).entries@[i as int].agent@,
            v.wf(),
        ensures
            final(self).wf(),
            final(self).entries@ == old(self).entries@.update(i as int, v),
    {
        self.entries.set(i, v);
    }

    /// Destroys the vault at `i`; later entries keep their order.
    pub fn remove(&mut self, i: usize)
        requires
            old(self).wf(),
            i < old(self).entries@.len(),
        ensures
            final(self).wf(),
            final(self).entries@ == old(self).entries@.remove(i as int),
    {
        self.entries.remove(i);
    }
}

} // verus!
