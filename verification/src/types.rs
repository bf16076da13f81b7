//! The plain values that the ledger exchanges with its host.

use vstd::prelude::*;

verus! {

/// Identifier of a record. Identifiers are assigned in increasing order and
/// never assigned twice.
pub type TypeID = u64;

/// Identifier of an account.
pub type AccountId = u64;

/// A point in time or a block marker, as the host's clock counts it.
pub type Moment = u64;

/// An opaque content payload. The ledger stores it and never looks inside.
pub type Content = Vec<u8>;

/// A notification that the host forwards to its event sink.
#[derive(Clone, Copy, Debug, PartialEq, Eq)]
pub enum Event {
    /// A revocation of the given identifier was carried out.
    RevokeSucceed(TypeID),
    /// A record was created under the given identifier.
    CreateSucceed(TypeID),
}

impl Event {
    /// The identifier that the notification is about.
    pub open spec fn spec_item_id(&self) -> TypeID {
        match *self {
            Event::RevokeSucceed(id) => id,
            Event::CreateSucceed(id) => id,
        }
    }

    /// The identifier that the notification is about.
    #[verifier::when_used_as_spec(spec_item_id)]
    pub fn item_id(&self) -> (id: TypeID)
        ensures
            id == self.spec_item_id(),
    {
        match self {
            Event::RevokeSucceed(id) => *id,
            Event::CreateSucceed(id) => *id,
        }
    }
}

/// The ways in which an operation of the ledger fails.
#[derive(Clone, Copy, Debug, PartialEq, Eq)]
pub enum Error {
    /// The identifier of a record to be stored is already taken: the
    /// allocator and the store have come apart.
    DuplicateIdentifier,
    /// Every identifier has been handed out; nothing more can be created.
    AllocatorExhausted,
    /// The identifier is not listed under the account.
    NotFound,
}

} // verus!
