use crate::badge::{mint_badge, owners_after_transfer, transfer_outcome, Badge, BadgeError};
use crate::identity::Identity;
use std::collections::HashMap;
use vstd::prelude::*;

verus! {

broadcast use vstd::std_specs::hash::group_hash_axioms;

/// An in-memory store of badges keyed by identifier, on which mint and
/// transfer act as they do on the host's store.
pub struct Registry {
    badges: HashMap<u64, Badge>,
}

impl View for Registry {
    type V = Map<u64, Badge>;

    closed spec fn view(&self) -> Map<u64, Badge> {
        self.badges@
    }
}

impl Registry {
    /// Every stored badge is well formed and stored under its own identifier.
    pub open spec fn wf(&self) -> bool {
        forall|k: u64| #[trigger] self@.contains_key(k) ==> self@[k].wf() && self@[k].id == k
    }

    /// An empty registry.
    pub fn new() -> (r: Registry)
        ensures
            r@ == Map::<u64, Badge>::empty(),
            r.wf(),
    {
        Registry { badges: HashMap::new() }
    }

    /// The badge stored under `id`, if any.
    pub fn get(&self, id: u64) -> (r: Option<&Badge>)
        ensures
            match r {
                Some(b) => self@.contains_key(id) && *b == self@[id],
                None => !self@.contains_key(id),
            },
    {
        self.badges.get(&id)
    }

    /// Mints a badge under `id` with `caller` as its sole owner, replacing
    /// any badge stored there before, whoever owned it.
    pub fn mint(&mut self, id: u64, name: String, description: String, caller: Identity)
        ensures
            final(self)@.dom() == old(self)@.dom().insert(id),
            forall|k: u64| k != id && old(self)@.contains_key(k) ==> final(self)@[k] == old(self)@[k],
            final(self)@[id].id == id,
            final(self)@[id].name@ == name@,
            final(self)@[id].description@ == description@,
            final(self)@[id].owners@ == seq![caller],
            final(self)@[id].owners@.to_set() == set![caller],
            old(self).wf() ==> final(self).wf(),
    {
        let badge = mint_badge(id, name, description, caller);
        self.badges.insert(id, badge);
        proof {
            assert(seq![caller].to_set() =~= set![caller]) by {
                assert(seq![caller][0] == caller);
            }
        }
    }

    /// Transfers the badge `id` from `caller` to `new_owner`. Rejects with
    /// `NotFound` when no badge is stored under `id`, then with
    /// `PermissionDenied` when the caller is not an owner, then with
    /// `InvalidNewOwner` when the new owner is not an owner already. A
    /// rejection leaves the registry unchanged; a success changes the owner
    /// list of that badge alone.
    pub fn transfer(&mut self, id: u64, new_owner: Identity, caller: Identity) -> (r: Result<(), BadgeError>)
        ensures
            !old(self)@.contains_key(id) ==> r == Err::<(), BadgeError>(BadgeError::NotFound),
            old(self)@.contains_key(id) ==> r == transfer_outcome(old(self)@[id].owners@, new_owner, caller),
            r is Err ==> final(self)@ == old(self)@,
            r is Ok ==> {
                &&& final(self)@.dom() == old(self)@.dom()
                &&& forall|k: u64| k != id && old(self)@.contains_key(k) ==> final(self)@[k] == old(self)@[k]
                &&& final(self)@[id].id == old(self)@[id].id
                &&& final(self)@[id].name@ == old(self)@[id].name@
                &&& final(self)@[id].description@ == old(self)@[id].description@
                &&& final(self)@[id].owners@ == owners_after_transfer(old(self)@[id].owners@, new_owner, caller)
            },
            old(self).wf() ==> final(self).wf(),
            old(self)@.contains_key(id) && !old(self)@[id].owners@.contains(caller) ==> r
                == Err::<(), BadgeError>(BadgeError::PermissionDenied),
            old(self)@.contains_key(id) && old(self)@[id].owners@.contains(caller)
                && !old(self)@[id].owners@.contains(new_owner) ==> r
                == Err::<(), BadgeError>(BadgeError::InvalidNewOwner),
            old(self)@.contains_key(id) && old(self)@[id].owners@.contains(caller) && caller == new_owner
                ==> r is Ok && final(self)@[id].owners@ == old(self)@[id].owners@,
            old(self).wf() && old(self)@.contains_key(id) && old(self)@[id].owners@.contains(caller)
                && old(self)@[id].owners@.contains(new_owner) && caller != new_owner ==> {
                &&& r is Ok
                &&& final(self)@[id].owners@.to_set() == old(self)@[id].owners@.to_set().remove(caller).insert(
                    new_owner,
                )
                &&& final(self)@[id].owners@.len() == old(self)@[id].owners@.len() - 1
            },
    {
        match self.badges.remove(&id) {
            None => Err(BadgeError::NotFound),
            Some(mut badge) => {
                let r = badge.transfer(new_owner, caller);
                self.badges.insert(id, badge);
                proof {
                    if r is Err {
                        assert(self.badges@ =~= old(self).badges@);
                    }
                }
                r
            },
        }
    }
}

} // verus!
