//! The store's indices: digest to identifier, and account to identifiers.

use vstd::prelude::*;
use std::collections::HashMap;
use crate::model::{enlisted, listed, AccountIndex};
use crate::types::{same_digest, AccountId, EscrowId, MAX_METADATA_LEN};

verus! {

broadcast use vstd::std_specs::hash::group_hash_axioms;

/// Calls `BoundedVec::<u8, ConstU32<256>>::try_from` of `frame_support` and,
/// where it accepts, `into_inner`. Trusted: the constructor accepts a vector
/// exactly when it holds at most 256 bytes, and keeps its bytes as they are.
#[verifier::external_body]
pub(crate) fn bounded_metadata(bytes: Vec<u8>) -> (kept: Option<Vec<u8>>)
    ensures
        kept is Some <==> bytes@.len() <= MAX_METADATA_LEN,
        kept is Some ==> kept->Some_0@ == bytes@,
{
    match frame_support::BoundedVec::<u8, frame_support::traits::ConstU32<256>>::try_from(bytes) {
        Ok(bounded) => Some(bounded.into_inner()),
        Err(_) => None,
    }
}

struct SecretEntry {
    digest: [u8; 32],
    id: EscrowId,
}

/// The digest index: which record has taken which commitment.
pub struct SecretIndex {
    entries: Vec<SecretEntry>,
    taken: Ghost<Map<Seq<u8>, EscrowId>>,
}

impl View for SecretIndex {
    type V = Map<Seq<u8>, EscrowId>;

    closed spec fn view(&self) -> Map<Seq<u8>, EscrowId> {
        self.taken@
    }
}

impl SecretIndex {
    /// The entries are the map, each digest once.
    pub closed spec fn wf(&self) -> bool {
        &&& forall|i: int|
            0 <= i < self.entries@.len() ==> self.taken@.contains_key(
                (#[trigger] self.entries@[i]).digest@,
            ) && self.taken@[self.entries@[i].digest@] == self.entries@[i].id
        &&& forall|h: Seq<u8>| #[trigger]
            self.taken@.contains_key(h) ==> exists|i: int|
                0 <= i < self.entries@.len() && (#[trigger] self.entries@[i]).digest@ == h
        &&& forall|i: int, j: int|
            0 <= i < j < self.entries@.len() ==> (#[trigger] self.entries@[i]).digest@ != (
            #[trigger] self.entries@[j]).digest@
    }

    /// An index in which no commitment is taken.
    pub fn new() -> (index: SecretIndex)
        ensures
            index.wf(),
            index@ == Map::<Seq<u8>, EscrowId>::empty(),
    {
        SecretIndex { entries: Vec::new(), taken: Ghost(Map::empty()) }
    }

    fn position(&self, digest: &[u8; 32]) -> (at: Option<usize>)
        requires
            self.wf(),
        ensures
            match at {
                Some(i) => i < self.entries@.len() && self.entries@[i as int].digest@ == digest@
                    && self@.contains_key(digest@),
                None => !self@.contains_key(digest@),
            },
    {
        let mut i: usize = 0;
        while i < self.entries.len()
            invariant
                self.wf(),
                i <= self.entries@.len(),
                forall|k: int| 0 <= k < i ==> (#[trigger] self.entries@[k]).digest@ != digest@,
            decreases self.entries@.len() - i,
        {
            if same_digest(&self.entries[i].digest, digest) {
                return Some(i);
            }
            i += 1;
        }
        None
    }

    /// The record that has taken `digest`, if any.
    pub fn get(&self, digest: &[u8; 32]) -> (id: Option<EscrowId>)
        requires
            self.wf(),
        ensures
            id == (if self@.contains_key(digest@) {
                Some(self@[digest@])
            } else {
                None
            }),
    {
        match self.position(digest) {
            Some(i) => Some(self.entries[i].id),
            None => None,
        }
    }

    /// Takes `digest` for `id`.
    pub fn insert(&mut self, digest: [u8; 32], id: EscrowId)
        requires
            old(self).wf(),
            !old(self)@.contains_key(digest@),
        ensures
            final(self).wf(),
            final(self)@ == old(self)@.insert(digest@, id),
    {
        self.entries.push(SecretEntry { digest, id });
        proof {
            self.taken@ = self.taken@.insert(digest@, id);
            let last = old(self).entries@.len() as int;
            assert forall|h: Seq<u8>| #[trigger] self.taken@.contains_key(h) implies exists|
                i: int,
            |
                0 <= i < self.entries@.len() && (#[trigger] self.entries@[i]).digest@ == h by {
                if h == digest@ {
                    assert(self.entries@[last].digest@ == h);
                } else {
                    let i = choose|i: int|
                        0 <= i < old(self).entries@.len() && (#[trigger] old(
                            self,
                        ).entries@[i]).digest@ == h;
                    assert(self.entries@[i].digest@ == h);
                }
            }
        }
    }

    /// Frees `digest`.
    pub fn remove(&mut self, digest: &[u8; 32])
        requires
            old(self).wf(),
        ensures
            final(self).wf(),
            final(self)@ == old(self)@.remove(digest@),
    {
        match self.position(digest) {
            None => {},
            Some(at) => {
                self.entries.remove(at);
                proof {
                    self.taken@ = self.taken@.remove(digest@);
                    let before = old(self).entries@;
                    assert forall|h: Seq<u8>| #[trigger]
                        self.taken@.contains_key(h) implies exists|i: int|
                        0 <= i < self.entries@.len() && (#[trigger] self.entries@[i]).digest@
                            == h by {
                        let j = choose|j: int|
                            0 <= j < before.len() && (#[trigger] before[j]).digest@ == h;
                        let i = if j < at {
                            j
                        } else {
                            j - 1
                        };
                        assert(self.entries@[i].digest@ == h);
                    }
                }
            },
        }
    }
}

/// An index from accounts to the escrows they take part in.
pub struct AccountLists {
    lists: HashMap<AccountId, Vec<EscrowId>>,
}

impl View for AccountLists {
    type V = AccountIndex;

    closed spec fn view(&self) -> AccountIndex {
        Map::new(|who: AccountId| self.lists@.contains_key(who), |who: AccountId| self.lists@[who]@)
    }
}

impl AccountLists {
    /// An index in which no account has an escrow.
    pub fn new() -> (index: AccountLists)
        ensures
            index@ == Map::<AccountId, Seq<EscrowId>>::empty(),
    {
        AccountLists { lists: HashMap::new() }
    }

    /// How many escrows `who` is listed with.
    pub fn count(&self, who: AccountId) -> (n: usize)
        ensures
            n == listed(self@, who).len(),
    {
        match self.lists.get(&who) {
            Some(list) => list.len(),
            None => 0,
        }
    }

    /// The escrows of `who`, oldest first.
    pub fn list(&self, who: AccountId) -> (ids: Vec<EscrowId>)
        ensures
            ids@ == listed(self@, who),
    {
        let mut ids: Vec<EscrowId> = Vec::new();
        match self.lists.get(&who) {
            Some(list) => {
                let mut i: usize = 0;
                while i < list.len()
                    invariant
                        i <= list@.len(),
                        ids@ == list@.take(i as int),
                    decreases list@.len() - i,
                {
                    ids.push(list[i]);
                    i += 1;
                }
            },
            None => {},
        }
        ids
    }

    /// Appends `id` to the list of `who`.
    pub fn enlist(&mut self, who: AccountId, id: EscrowId)
        ensures
            final(self)@ == enlisted(old(self)@, who, id),
    {
        let mut list = match self.lists.remove(&who) {
            Some(list) => list,
            None => Vec::new(),
        };
        list.push(id);
        self.lists.insert(who, list);
    }
}

} // verus!
