use crate::identity::Identity;
use vstd::prelude::*;

verus! {

/// A badge record: an identifier, a display name, a description, and the
/// ordered set of accounts entitled to transfer it.
pub struct Badge {
    pub id: u64,
    pub name: String,
    pub description: String,
    pub owners: Vec<Identity>,
}

/// Why a transfer was rejected.
#[derive(Clone, Copy, Debug, PartialEq, Eq, Structural)]
pub enum BadgeError {
    /// No badge is stored under the given identifier.
    NotFound,
    /// The caller is not among the badge's owners.
    PermissionDenied,
    /// The proposed new owner is not among the badge's owners.
    InvalidNewOwner,
}

impl BadgeError {
    /// The human-readable reason handed to the host when a call is aborted.
    pub fn message(&self) -> (r: &'static str)
        ensures
            r@ == self.message_spec(),
    {
        match self {
            BadgeError::NotFound => "Badge not found.",
            BadgeError::PermissionDenied => "Permission denied: You are not the owner of this badge.",
            BadgeError::InvalidNewOwner => "Invalid new owner.",
        }
    }

    /// The reason text of each rejection.
    pub open spec fn message_spec(&self) -> Seq<char> {
        match self {
            BadgeError::NotFound => "Badge not found."@,
            BadgeError::PermissionDenied => "Permission denied: You are not the owner of this badge."@,
            BadgeError::InvalidNewOwner => "Invalid new owner."@,
        }
    }
}

/// The owner list that a successful transfer from `caller` to `new_owner` leaves.
pub open spec fn owners_after_transfer(
    owners: Seq<Identity>,
    new_owner: Identity,
    caller: Identity,
) -> Seq<Identity> {
    if caller == new_owner {
        owners
    } else {
        owners.remove_value(caller)
    }
}

/// The outcome of a transfer on a badge with the given owners: the first
/// precondition that fails, or success.
pub open spec fn transfer_outcome(
    owners: Seq<Identity>,
    new_owner: Identity,
    caller: Identity,
) -> Result<(), BadgeError> {
    if !owners.contains(caller) {
        Err(BadgeError::PermissionDenied)
    } else if !owners.contains(new_owner) {
        Err(BadgeError::InvalidNewOwner)
    } else {
        Ok(())
    }
}

/// A successful transfer between two distinct owners of a well-formed owner
/// list takes the caller out and keeps the new owner in: as a set, the owners
/// become `owners - {caller} + {new_owner}`, one fewer than before, and the
/// list still holds no owner twice.
pub proof fn lemma_transfer_swaps_membership(owners: Seq<Identity>, new_owner: Identity, caller: Identity)
    requires
        owners.no_duplicates(),
        owners.contains(caller),
        owners.contains(new_owner),
        new_owner != caller,
    ensures
        transfer_outcome(owners, new_owner, caller) == Ok::<(), BadgeError>(()),
        owners_after_transfer(owners, new_owner, caller).to_set() == owners.to_set().remove(caller).insert(new_owner),
        owners_after_transfer(owners, new_owner, caller).len() == owners.len() - 1,
        owners_after_transfer(owners, new_owner, caller).to_set().len() == owners.to_set().len() - 1,
        owners_after_transfer(owners, new_owner, caller).no_duplicates(),
{
    owners.index_of_first_ensures(caller);
    let i = owners.index_of_first(caller)->Some_0;
    let r = owners.remove(i);
    assert(r == owners_after_transfer(owners, new_owner, caller));
    assert forall|x: Identity| r.contains(x) <==> (owners.contains(x) && x != caller) by {
        if r.contains(x) {
            let j = choose|j: int| 0 <= j < r.len() && r[j] == x;
            if j < i {
                assert(owners[j] == x);
            } else {
                assert(owners[j + 1] == x);
            }
        }
        if owners.contains(x) && x != caller {
            let k = choose|k: int| 0 <= k < owners.len() && owners[k] == x;
            if k < i {
                assert(r[k] == x);
            } else {
                assert(r[k - 1] == x);
            }
        }
    }
    assert(r.to_set() =~= owners.to_set().remove(caller).insert(new_owner));
    assert(r.no_duplicates()) by {
        assert forall|a: int, b: int| 0 <= a < r.len() && 0 <= b < r.len() && a != b implies r[a] != r[b] by {
            let a1 = if a < i { a } else { a + 1 };
            let b1 = if b < i { b } else { b + 1 };
            assert(r[a] == owners[a1]);
            assert(r[b] == owners[b1]);
        }
    }
    owners.unique_seq_to_set();
    r.unique_seq_to_set();
}

impl Badge {
    /// A badge is well formed when it has at least one owner and no owner twice.
    pub open spec fn wf(&self) -> bool {
        &&& self.owners@.len() > 0
        &&& self.owners@.no_duplicates()
    }

    /// A badge whose only owner is `owner`.
    pub fn new(id: u64, name: String, description: String, owner: Identity) -> (r: Badge)
        ensures
            r.id == id,
            r.name@ == name@,
            r.description@ == description@,
            r.owners@ == seq![owner],
            r.wf(),
    {
        let mut owners: Vec<Identity> = Vec::new();
        owners.push(owner);
        Badge { id, name, description, owners }
    }

    /// Position of `who` in the owner list, if it is there.
    fn owner_index(&self, who: &Identity) -> (r: Option<usize>)
        ensures
            match r {
                Some(i) => {
                    &&& i < self.owners@.len()
                    &&& self.owners@[i as int] == *who
                    &&& forall|j: int| 0 <= j < i ==> self.owners@[j] != *who
                },
                None => !self.owners@.contains(*who),
            },
    {
        let mut i: usize = 0;
        while i < self.owners.len()
            invariant
                i <= self.owners@.len(),
                forall|j: int| 0 <= j < i ==> self.owners@[j] != *who,
            decreases self.owners@.len() - i,
        {
            if self.owners[i] == *who {
                return Some(i);
            }
            i = i + 1;
        }
        None
    }

    /// Whether `who` is currently an owner of this badge.
    pub fn has_owner(&self, who: &Identity) -> (r: bool)
        ensures
            r == self.owners@.contains(*who),
    {
        self.owner_index(who).is_some()
    }

    /// Rotates ownership from `caller` to `new_owner`, both of whom must
    /// already be owners. The caller leaves the owner list; the new owner's
    /// membership stands. A transfer to oneself changes nothing.
    /// On a rejection the badge is left as it was.
    pub fn transfer(&mut self, new_owner: Identity, caller: Identity) -> (r: Result<(), BadgeError>)
        ensures
            r == transfer_outcome(old(self).owners@, new_owner, caller),
            final(self).id == old(self).id,
            final(self).name@ == old(self).name@,
            final(self).description@ == old(self).description@,
            r is Ok ==> final(self).owners@ == owners_after_transfer(old(self).owners@, new_owner, caller),
            r is Err ==> *final(self) == *old(self),
            old(self).wf() ==> final(self).wf(),
            !old(self).owners@.contains(caller) ==> r == Err::<(), BadgeError>(BadgeError::PermissionDenied),
            old(self).owners@.contains(caller) && !old(self).owners@.contains(new_owner) ==> r
                == Err::<(), BadgeError>(BadgeError::InvalidNewOwner),
            old(self).owners@.contains(caller) && caller == new_owner ==> r is Ok && final(self).owners@
                == old(self).owners@,
            old(self).wf() && old(self).owners@.contains(caller) && old(self).owners@.contains(new_owner)
                && caller != new_owner ==> {
                &&& r is Ok
                &&& final(self).owners@.to_set() == old(self).owners@.to_set().remove(caller).insert(new_owner)
                &&& final(self).owners@.len() == old(self).owners@.len() - 1
            },
    {
        let at = self.owner_index(&caller);
        if at.is_none() {
            return Err(BadgeError::PermissionDenied);
        }
        if !self.has_owner(&new_owner) {
            return Err(BadgeError::InvalidNewOwner);
        }
        if caller != new_owner {
            proof {
                if self.wf() {
                    lemma_transfer_swaps_membership(self.owners@, new_owner, caller);
                }
            }
            let i = at.unwrap();
            proof {
                self.owners@.index_of_first_ensures(caller);
            }
            self.owners.remove(i);
        }
        Ok(())
    }
}

/// Mints a badge: `caller` becomes its sole owner. Minting never fails; the
/// record returned replaces whatever was stored under `id` before.
pub fn mint_badge(id: u64, name: String, description: String, caller: Identity) -> (r: Badge)
    ensures
        r.id == id,
        r.name@ == name@,
        r.description@ == description@,
        r.owners@ == seq![caller],
        r.owners@.to_set() == set![caller],
        r.wf(),
{
    proof {
        assert(seq![caller][0] == caller);
        assert(seq![caller].to_set() =~= set![caller]);
    }
    Badge::new(id, name, description, caller)
}

/// Whether `who` is among the current owners of `badge`.
pub fn is_owner(badge: &Badge, who: &Identity) -> (r: bool)
    ensures
        r == badge.owners@.contains(*who),
{
    badge.has_owner(who)
}

/// Transfers the badge read from the store (`None` when nothing is stored
/// under its key) from `caller` to `new_owner`. The checks run in order: the
/// badge must exist, the caller must own it, and the new owner must own it
/// already. On success the updated record is returned, to be written back.
pub fn transfer_badge(stored: Option<Badge>, new_owner: Identity, caller: Identity) -> (r: Result<Badge, BadgeError>)
    ensures
        stored is None ==> r == Err::<Badge, BadgeError>(BadgeError::NotFound),
        stored is Some ==> {
            let b = stored->Some_0;
            match transfer_outcome(b.owners@, new_owner, caller) {
                Err(e) => r == Err::<Badge, BadgeError>(e),
                Ok(_) => {
                    &&& r is Ok
                    &&& r->Ok_0.id == b.id
                    &&& r->Ok_0.name@ == b.name@
                    &&& r->Ok_0.description@ == b.description@
                    &&& r->Ok_0.owners@ == owners_after_transfer(b.owners@, new_owner, caller)
                },
            }
        },
{
    match stored {
        None => Err(BadgeError::NotFound),
        Some(mut badge) => match badge.transfer(new_owner, caller) {
            Ok(()) => Ok(badge),
            Err(e) => Err(e),
        },
    }
}

} // verus!
