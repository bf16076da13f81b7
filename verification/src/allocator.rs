//! Allocation of record identifiers.

use vstd::prelude::*;
use crate::types::{Error, TypeID};

verus! {

/// Hands out record identifiers in strictly increasing order.
///
/// The allocator is a counter holding the next identifier to hand out. It
/// only ever moves forward, by one per identifier handed out, so no
/// identifier leaves it twice. Once the counter has reached the largest
/// representable value the allocator is exhausted and refuses every further
/// request instead of wrapping around.
pub struct IdentifierAllocator {
    next: TypeID,
}

impl View for IdentifierAllocator {
    type V = TypeID;

    /// The next identifier to be handed out.
    closed spec fn view(&self) -> TypeID {
        self.next
    }
}

impl IdentifierAllocator {
    /// Whether no identifier is left.
    pub open spec fn spec_is_exhausted(&self) -> bool {
        self@ == TypeID::MAX
    }

    /// The allocator of a fresh ledger: it starts at identifier zero.
    pub fn new() -> (allocator: Self)
        ensures
            allocator@ == 0,
    {
        IdentifierAllocator { next: 0 }
    }

    /// An allocator that resumes at `next`, for a host that keeps the
    /// counter in durable storage between operations.
    pub fn starting_at(next: TypeID) -> (allocator: Self)
        ensures
            allocator@ == next,
    {
        IdentifierAllocator { next }
    }

    /// The identifier that the next successful request will return.
    pub fn peek(&self) -> (next: TypeID)
        ensures
            next == self@,
    {
        self.next
    }

    /// Whether no identifier is left.
    #[verifier::when_used_as_spec(spec_is_exhausted)]
    pub fn is_exhausted(&self) -> (exhausted: bool)
        ensures
            exhausted == self.spec_is_exhausted(),
    {
        self.next == TypeID::MAX
    }

    /// Hands out the next identifier and advances the counter by one.
    ///
    /// Fails with [`Error::AllocatorExhausted`], leaving the counter where
    /// it is, exactly when the counter stands at the largest representable
    /// value.
    pub fn next_id(&mut self) -> (r: Result<TypeID, Error>)
        ensures
            old(self)@ < TypeID::MAX ==> r == Ok::<TypeID, Error>(old(self)@) && final(self)@
                == old(self)@ + 1,
            old(self)@ == TypeID::MAX ==> r == Err::<TypeID, Error>(Error::AllocatorExhausted)
                && final(self)@ == old(self)@,
    {
        if self.next == TypeID::MAX {
            Err(Error::AllocatorExhausted)
        } else {
            let id: TypeID = self.next;
            self.next = id + 1;
            Ok(id)
        }
    }
}

} // verus!
