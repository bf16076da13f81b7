//! The ledger's two operations: creating a record and revoking one.

use vstd::prelude::*;
use crate::allocator::IdentifierAllocator;
use crate::item::Item;
use crate::model::{Creation, LedgerState};
use crate::store::RecordStore;
use crate::types::{AccountId, Content, Error, Event, Moment, TypeID};

verus! {

/// The ledger: an identifier allocator and the record store that it feeds.
///
/// The host establishes who is calling and what time it is, and hands both
/// in; each operation returns the notification that the host then forwards
/// to its event sink.
pub struct Pallet {
    allocator: IdentifierAllocator,
    store: RecordStore,
}

impl View for Pallet {
    type V = LedgerState;

    closed spec fn view(&self) -> LedgerState {
        LedgerState { next_id: self.allocator@, store: self.store@ }
    }
}

impl Pallet {
    /// The ledger is well formed when the two indices of its store agree.
    pub open spec fn wf(&self) -> bool {
        self@.store.consistent()
    }

    /// The ledger before any operation.
    pub fn new() -> (ledger: Self)
        ensures
            ledger.wf(),
            ledger@ == LedgerState::genesis(),
    {
        Pallet { allocator: IdentifierAllocator::new(), store: RecordStore::new() }
    }

    /// A ledger that resumes from an allocator and a store, for a host that
    /// keeps both in durable storage between operations.
    pub fn from_parts(allocator: IdentifierAllocator, store: RecordStore) -> (ledger: Self)
        requires
            store.wf(),
        ensures
            ledger.wf(),
            ledger@ == (LedgerState { next_id: allocator@, store: store@ }),
    {
        Pallet { allocator, store }
    }

    /// Takes the ledger apart into its allocator and its store.
    pub fn into_parts(self) -> (parts: (IdentifierAllocator, RecordStore))
        ensures
            parts.0@ == self@.next_id,
            parts.1@ == self@.store,
    {
        (self.allocator, self.store)
    }

    /// The identifier that the next creation will be given.
    pub fn itemid(&self) -> (next: TypeID)
        ensures
            next == self@.next_id,
    {
        self.allocator.peek()
    }

    /// A copy of the live record under `id`, or `None` if there is none.
    pub fn item_by_id(&self, id: TypeID) -> (found: Option<Item>)
        ensures
            self@.store.is_live(id) ==> found is Some && found->0@ == self@.store.records[id],
            !self@.store.is_live(id) ==> found is None,
    {
        self.store.get(id)
    }

    /// The identifiers listed under `owner`, in the order in which the
    /// index holds them; empty for an account that holds no record.
    pub fn items_by_accountid(&self, owner: AccountId) -> (ids: Vec<TypeID>)
        ensures
            ids@ == self@.store.owned[owner],
    {
        self.store.list_by_owner(owner)
    }

    /// Creates a record held by `owner` on behalf of `caller`, at time `now`.
    ///
    /// Any caller may create a record for any owner. The record gets the
    /// next identifier, which is consumed even if the store then refuses
    /// it. The record starts at score zero: `score` is not stored.
    ///
    /// Returns [`Event::CreateSucceed`] with the new identifier. Fails with
    /// [`Error::AllocatorExhausted`], changing nothing, when no identifier
    /// is left; and with [`Error::DuplicateIdentifier`], storing nothing,
    /// when a live record already has the identifier that was handed out.
    pub fn create_item(
        &mut self,
        caller: AccountId,
        owner: AccountId,
        metadata: Content,
        org_date: Option<Moment>,
        exp_date: Option<Moment>,
        certificate_ref: Option<TypeID>,
        score: u32,
        now: Moment,
    ) -> (r: Result<Event, Error>)
        requires
            old(self).wf(),
        ensures
            final(self).wf(),
            r == old(self)@.create_outcome(),
            final(self)@ == old(self)@.create(
                (Creation {
                    caller,
                    owner,
                    metadata: metadata@,
                    org_date,
                    exp_date,
                    certificate_ref,
                    score,
                    now,
                }),
            ),
    {
        let id = match self.allocator.next_id() {
            Ok(id) => id,
            Err(_) => {
                return Err(Error::AllocatorExhausted);
            },
        };
        let item = Item::new(
            id,
            owner,
            caller,
            now,
            org_date,
            exp_date,
            certificate_ref,
            score,
            metadata,
        );
        match self.store.insert(item) {
            Ok(()) => Ok(Event::CreateSucceed(id)),
            Err(_) => Err(Error::DuplicateIdentifier),
        }
    }

    /// Revokes the record `id` if it is listed under `caller`.
    ///
    /// Only the caller's own list is searched, so an account can revoke
    /// only what it holds. When `id` is not listed there, whether because
    /// it belongs to another account, was revoked before or never existed,
    /// nothing changes and the call succeeds all the same.
    ///
    /// Always returns [`Event::RevokeSucceed`] with `id`.
    pub fn revoke_item(&mut self, caller: AccountId, id: TypeID) -> (r: Result<Event, Error>)
        requires
            old(self).wf(),
        ensures
            final(self).wf(),
            r == Ok::<Event, Error>(Event::RevokeSucceed(id)),
            final(self)@ == old(self)@.revoke(caller, id),
    {
        let _ = self.store.remove_by_owner(caller, id);
        Ok(Event::RevokeSucceed(id))
    }
}

} // verus!
