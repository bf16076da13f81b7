//! The ledger as a mathematical state machine.
//!
//! The executable types of this crate are specified against the values
//! defined here: a store is a map of live records together with, for every
//! account, the sequence of identifiers listed under it; a ledger is a store
//! together with the next identifier to hand out. The operations are total
//! functions on these values, so that what a sequence of operations does can
//! be stated and proved once, for every sequence.

use vstd::prelude::*;
use crate::item::ItemView;
use crate::types::{AccountId, Error, Event, Moment, TypeID};

verus! {

/// The sequence that is left when the element at position `i` is taken out
/// by moving the last element into its place.
pub open spec fn swap_removed(ids: Seq<TypeID>, i: int) -> Seq<TypeID> {
    ids.update(i, ids.last()).drop_last()
}

/// What a record store holds.
pub struct StoreState {
    /// The live records, each under its identifier.
    pub records: Map<TypeID, ItemView>,
    /// For every account, the identifiers listed under it, in the order in
    /// which the index holds them. An account with no records has the empty
    /// sequence.
    pub owned: Map<AccountId, Seq<TypeID>>,
}

impl StoreState {
    /// The store without any record.
    pub open spec fn empty() -> StoreState {
        StoreState {
            records: Map::empty(),
            owned: Map::total(|owner: AccountId| Seq::<TypeID>::empty()),
        }
    }

    /// Whether a record is live under `id`.
    pub open spec fn is_live(self, id: TypeID) -> bool {
        self.records.contains_key(id)
    }

    /// Whether `id` is listed under `owner`.
    pub open spec fn lists(self, owner: AccountId, id: TypeID) -> bool {
        self.owned[owner].contains(id)
    }

    /// The store after `item` has been added under its identifier and
    /// appended to its owner's list.
    pub open spec fn insert(self, item: ItemView) -> StoreState {
        StoreState {
            records: self.records.insert(item.id, item),
            owned: self.owned.insert(item.owner, self.owned[item.owner].push(item.id)),
        }
    }

    /// The store after `id` has been taken out of `owner`'s list, the last
    /// entry of the list moving into its place, and the record under `id`
    /// has been deleted.
    pub open spec fn remove_by_owner(self, owner: AccountId, id: TypeID) -> StoreState {
        let ids = self.owned[owner];
        StoreState {
            records: self.records.remove(id),
            owned: self.owned.insert(owner, swap_removed(ids, ids.index_of(id))),
        }
    }

    /// The two indices agree: every live record is filed under its own
    /// identifier, an identifier is listed under an account exactly when it
    /// is live and that account owns it, and no list holds an identifier
    /// twice.
    pub open spec fn consistent(self) -> bool {
        &&& forall|owner: AccountId| #[trigger] self.owned.contains_key(owner)
        &&& forall|id: TypeID| #[trigger]
            self.is_live(id) ==> self.records[id].id == id
        &&& forall|owner: AccountId, id: TypeID| #[trigger]
            self.lists(owner, id) <==> self.is_live(id) && self.records[id].owner == owner
        &&& forall|owner: AccountId| (#[trigger] self.owned[owner]).no_duplicates()
    }
}

/// What a creation is asked with.
pub struct Creation {
    /// The account that asks.
    pub caller: AccountId,
    /// The account that is to hold the record.
    pub owner: AccountId,
    /// The content payload.
    pub metadata: Seq<u8>,
    /// Start of the validity window.
    pub org_date: Option<Moment>,
    /// End of the validity window.
    pub exp_date: Option<Moment>,
    /// The certificate referred to.
    pub certificate_ref: Option<TypeID>,
    /// The score asked for; it is not stored.
    pub score: u32,
    /// The host's clock at the time of the call.
    pub now: Moment,
}

impl Creation {
    /// The record that the creation stores when it is given `id`.
    pub open spec fn record(self, id: TypeID) -> ItemView {
        ItemView::created(
            id,
            self.owner,
            self.caller,
            self.now,
            self.org_date,
            self.exp_date,
            self.certificate_ref,
            self.metadata,
        )
    }
}

/// One call of a ledger operation.
pub enum Call {
    /// A creation.
    Create(Creation),
    /// The revocation of `id`, asked for by `caller`.
    Revoke { caller: AccountId, id: TypeID },
}

/// What a ledger holds.
pub struct LedgerState {
    /// The next identifier to hand out.
    pub next_id: TypeID,
    /// The records and their index by owner.
    pub store: StoreState,
}

impl LedgerState {
    /// The ledger before any operation: no record, and identifier zero next.
    pub open spec fn genesis() -> LedgerState {
        LedgerState { next_id: 0, store: StoreState::empty() }
    }

    /// Every live record has an identifier that the allocator has already
    /// handed out.
    pub open spec fn in_step(self) -> bool {
        forall|id: TypeID| #[trigger] self.store.is_live(id) ==> id < self.next_id
    }

    /// What a creation returns. It fails when no identifier is left, and
    /// when the identifier it is given is already taken in the store;
    /// otherwise it announces the new record's identifier.
    pub open spec fn create_outcome(self) -> Result<Event, Error> {
        if self.next_id == TypeID::MAX {
            Err(Error::AllocatorExhausted)
        } else if self.store.is_live(self.next_id) {
            Err(Error::DuplicateIdentifier)
        } else {
            Ok(Event::CreateSucceed(self.next_id))
        }
    }

    /// The ledger after a creation. A creation that finds no identifier left
    /// changes nothing. Any other consumes one identifier, and stores the
    /// new record unless the identifier is already taken.
    pub open spec fn create(self, request: Creation) -> LedgerState {
        if self.next_id == TypeID::MAX {
            self
        } else if self.store.is_live(self.next_id) {
            LedgerState { next_id: (self.next_id + 1) as TypeID, store: self.store }
        } else {
            LedgerState {
                next_id: (self.next_id + 1) as TypeID,
                store: self.store.insert(request.record(self.next_id)),
            }
        }
    }

    /// The ledger after `caller` has asked to revoke `id`: the record is
    /// removed if `id` is listed under `caller`, and nothing changes if not.
    pub open spec fn revoke(self, caller: AccountId, id: TypeID) -> LedgerState {
        if self.store.lists(caller, id) {
            LedgerState { next_id: self.next_id, store: self.store.remove_by_owner(caller, id) }
        } else {
            self
        }
    }

    /// The ledger after one call.
    pub open spec fn step(self, call: Call) -> LedgerState {
        match call {
            Call::Create(request) => self.create(request),
            Call::Revoke { caller, id } => self.revoke(caller, id),
        }
    }

    /// What one call returns. A revocation always succeeds.
    pub open spec fn outcome(self, call: Call) -> Result<Event, Error> {
        match call {
            Call::Create(_) => self.create_outcome(),
            Call::Revoke { id, .. } => Ok(Event::RevokeSucceed(id)),
        }
    }

    /// The ledger after a sequence of calls, made one after the other.
    pub open spec fn run(self, calls: Seq<Call>) -> LedgerState
        decreases calls.len(),
    {
        if calls.len() == 0 {
            self
        } else {
            self.run(calls.drop_last()).step(calls.last())
        }
    }
}

} // verus!
