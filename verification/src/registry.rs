use vstd::prelude::*;
use crate::errors::FlowError;
use crate::message::id_eq;
use crate::state::{AccountId, Provider};

verus! {

/// Whether some registered provider belongs to `authority`.
pub open spec fn has_provider(s: Seq<Provider>, authority: Seq<u8>) -> bool {
    exists|i: int| 0 <= i < s.len() && s[i].authority@ == authority
}

/// The index of the provider registered by `authority`; meaningful only when
/// `has_provider` holds and authorities are unique.
pub open spec fn provider_index(s: Seq<Provider>, authority: Seq<u8>) -> int {
    choose|i: int| 0 <= i < s.len() && s[i].authority@ == authority
}

/// The provider registered by `authority`.
pub open spec fn provider_of(s: Seq<Provider>, authority: Seq<u8>) -> Provider {
    s[provider_index(s, authority)]
}

/// Keyed storage of providers, at most one per registering authority.
pub struct ProviderRegistry {
    /// The registered providers, in registration order.
    pub entries: Vec<Provider>,
}

impl ProviderRegistry {
    /// No two providers share an authority.
    pub open spec fn wf(self) -> bool {
        forall|i: int, j: int|
            0 <= i < j < self.entries@.len() ==> self.entries@[i].authority@
                != self.entries@[j].authority@
    }

    /// An empty registry.
    pub fn new() -> (s: ProviderRegistry)
        ensures
            s.entries@.len() == 0,
            s.wf(),
    {
        ProviderRegistry { entries: Vec::new() }
    }

    /// Finds the provider registered by `authority`, if any.
    pub fn find_index(&self, authority: &AccountId) -> (r: Option<usize>)
        ensures
            match r {
                Some(i) => i < self.entries@.len() && self.entries@[i as int].authority@
                    == authority@ && (self.wf() ==> i as int == provider_index(
                    self.entries@,
                    authority@,
                )),
                None => !has_provider(self.entries@, authority@),
            },
    {
        let mut i: usize = 0;
        while i < self.entries.len()
            invariant
                i <= self.entries@.len(),
                forall|j: int| 0 <= j < i ==> self.entries@[j].authority@ != authority@,
            decreases self.entries@.len() - i,
        {
            if id_eq(&self.entries[i].authority, authority) {
                return Some(i);
            }
            i = i + 1;
        }
        None
    }

    /// Registers a new provider; rejected if its authority already has one.
    pub fn insert(&mut self, p: Provider) -> (r: Result<(), FlowError>)
        requires
            old(self).wf(),
        ensures
            final(self).wf(),
            match r {
                Ok(()) => !has_provider(old(self).entries@, p.authority@) && final(self).entries@
                    == old(self).entries@.push(p),
                Err(e) => e == FlowError::AlreadyExists && has_provider(
                    old(self).entries@,
                    p.authority@,
                ) && *final(self) == *old(self),
            },
    {
        if self.find_index(&p.authority).is_some() {
            return Err(FlowError::AlreadyExists);
        }
        self.entries.push(p);
        Ok(())
    }
}

} // verus!
