//! The record store: live records by identifier, and by owner.

use std::collections::HashMap;
use vstd::prelude::*;
use vstd::std_specs::hash::*;
use crate::item::Item;
use crate::model::{swap_removed, StoreState};
use crate::types::{AccountId, Error, TypeID};

verus! {

broadcast use group_hash_axioms;

/// The position of the first occurrence of `id` in `ids`, if there is one.
pub fn position(ids: &Vec<TypeID>, id: TypeID) -> (found: Option<usize>)
    ensures
        match found {
            Some(i) => i < ids@.len() && ids@[i as int] == id && !ids@.take(i as int).contains(id),
            None => !ids@.contains(id),
        },
{
    let mut i: usize = 0;
    while i < ids.len()
        invariant
            i <= ids@.len(),
            forall|k: int| 0 <= k < i ==> ids@[k] != id,
        decreases ids@.len() - i,
    {
        if ids[i] == id {
            return Some(i);
        }
        i += 1;
    }
    None
}

/// Owns the live records and both ways of finding them: by identifier, and
/// by the account that holds them.
///
/// The two indices can only be changed together, through [`insert`] and
/// [`remove_by_owner`], which keep them in agreement: see
/// [`StoreState::consistent`].
///
/// [`insert`]: RecordStore::insert
/// [`remove_by_owner`]: RecordStore::remove_by_owner
pub struct RecordStore {
    by_id: HashMap<TypeID, Item>,
    by_owner: HashMap<AccountId, Vec<TypeID>>,
}

impl View for RecordStore {
    type V = StoreState;

    closed spec fn view(&self) -> StoreState {
        StoreState {
            records: self.by_id@.map_values(|item: Item| item@),
            owned: Map::total(
                |owner: AccountId|
                    if self.by_owner@.contains_key(owner) {
                        self.by_owner@[owner]@
                    } else {
                        Seq::empty()
                    },
            ),
        }
    }
}

impl RecordStore {
    /// The store is well formed when its two indices agree.
    pub open spec fn wf(&self) -> bool {
        self@.consistent()
    }

    /// A store without any record.
    pub fn new() -> (store: Self)
        ensures
            store.wf(),
            store@ == StoreState::empty(),
    {
        let store = RecordStore { by_id: HashMap::new(), by_owner: HashMap::new() };
        assert(store@.records =~= StoreState::empty().records);
        assert(store@.owned =~~= StoreState::empty().owned);
        store
    }

    /// Adds a record under its identifier, and appends the identifier to
    /// its owner's list.
    ///
    /// Fails with [`Error::DuplicateIdentifier`], changing nothing, exactly
    /// when a live record already has that identifier.
    pub fn insert(&mut self, item: Item) -> (r: Result<(), Error>)
        requires
            old(self).wf(),
        ensures
            final(self).wf(),
            old(self)@.is_live(item@.id) ==> r == Err::<(), Error>(Error::DuplicateIdentifier)
                && final(self)@ == old(self)@,
            !old(self)@.is_live(item@.id) ==> r == Ok::<(), Error>(()) && final(self)@ == old(
                self,
            )@.insert(item@),
    {
        let id = item.id;
        let owner = item.owner;
        if self.by_id.contains_key(&id) {
            return Err(Error::DuplicateIdentifier);
        }
        let mut ids = match self.by_owner.remove(&owner) {
            Some(ids) => ids,
            None => Vec::new(),
        };
        ids.push(id);
        self.by_owner.insert(owner, ids);
        self.by_id.insert(id, item);
        proof {
            let after = old(self)@.insert(item@);
            assert(self@.records =~= after.records);
            assert(self@.owned =~~= after.owned);
            crate::laws::lemma_insert_consistent(old(self)@, item@);
        }
        Ok(())
    }

    /// Takes `id` out of `owner`'s list and deletes the record under it.
    /// The last entry of the list moves into the place that `id` had; the
    /// order of the list is otherwise kept.
    ///
    /// Fails with [`Error::NotFound`], changing nothing, exactly when `id`
    /// is not listed under `owner`.
    pub fn remove_by_owner(&mut self, owner: AccountId, id: TypeID) -> (r: Result<(), Error>)
        requires
            old(self).wf(),
        ensures
            final(self).wf(),
            !old(self)@.lists(owner, id) ==> r == Err::<(), Error>(Error::NotFound) && final(self)@
                == old(self)@,
            old(self)@.lists(owner, id) ==> r == Ok::<(), Error>(()) && final(self)@ == old(
                self,
            )@.remove_by_owner(owner, id),
    {
        let found = match self.by_owner.get(&owner) {
            Some(ids) => position(ids, id),
            None => None,
        };
        let at = match found {
            Some(at) => at,
            None => {
                return Err(Error::NotFound);
            },
        };
        let mut ids = match self.by_owner.remove(&owner) {
            Some(ids) => ids,
            None => Vec::new(),
        };
        proof {
            assert(old(self)@.owned[owner].no_duplicates());
        }
        ids.swap_remove(at);
        if ids.len() > 0 {
            self.by_owner.insert(owner, ids);
        }
        self.by_id.remove(&id);
        proof {
            let after = old(self)@.remove_by_owner(owner, id);
            assert(self@.records =~= after.records);
            assert(self@.owned =~~= after.owned);
            crate::laws::lemma_remove_consistent(old(self)@, owner, id);
        }
        Ok(())
    }

    /// A copy of the live record under `id`, or `None` if there is none.
    pub fn get(&self, id: TypeID) -> (found: Option<Item>)
        ensures
            self@.is_live(id) ==> found is Some && found->0@ == self@.records[id],
            !self@.is_live(id) ==> found is None,
    {
        match self.by_id.get(&id) {
            Some(item) => Some(item.clone()),
            None => None,
        }
    }

    /// The identifiers listed under `owner`, in the order in which the
    /// index holds them; empty for an account that holds no record.
    pub fn list_by_owner(&self, owner: AccountId) -> (ids: Vec<TypeID>)
        ensures
            ids@ == self@.owned[owner],
    {
        match self.by_owner.get(&owner) {
            Some(ids) => {
                let copy = ids.clone();
                assert(copy@ =~= ids@);
                copy
            },
            None => Vec::new(),
        }
    }
}

} // verus!
