//! The record that the ledger keeps.

use vstd::prelude::*;
use crate::types::{AccountId, Content, Moment, TypeID};

verus! {

/// A credential record: a curriculum entry or certificate held by an account.
///
/// A record is immutable once created; the only thing that can happen to it
/// afterwards is its revocation.
#[derive(Debug, PartialEq, Eq)]
pub struct Item {
    /// The record's identifier, unique among all records ever created.
    pub id: TypeID,
    /// The account that holds the record.
    pub owner: AccountId,
    /// The account that created the record; it may be the owner.
    pub created_by: AccountId,
    /// When the record was created, by the host's clock.
    pub created_at: Moment,
    /// Start of the validity window; `None` leaves it open.
    pub valid_from: Option<Moment>,
    /// End of the validity window; `None` leaves it open.
    pub valid_until: Option<Moment>,
    /// The certificate that the record refers to, if any.
    pub certificate_ref: Option<TypeID>,
    /// The record's score.
    pub score: u32,
    /// The content payload, never interpreted by the ledger.
    pub metadata: Content,
}

/// What a record holds, as mathematical values.
pub struct ItemView {
    pub id: TypeID,
    pub owner: AccountId,
    pub created_by: AccountId,
    pub created_at: Moment,
    pub valid_from: Option<Moment>,
    pub valid_until: Option<Moment>,
    pub certificate_ref: Option<TypeID>,
    pub score: u32,
    pub metadata: Seq<u8>,
}

impl ItemView {
    /// The record that a creation stores. The score that the creator
    /// supplies is not a parameter: a new record always starts at score zero.
    pub open spec fn created(
        id: TypeID,
        owner: AccountId,
        created_by: AccountId,
        created_at: Moment,
        valid_from: Option<Moment>,
        valid_until: Option<Moment>,
        certificate_ref: Option<TypeID>,
        metadata: Seq<u8>,
    ) -> ItemView {
        ItemView {
            id,
            owner,
            created_by,
            created_at,
            valid_from,
            valid_until,
            certificate_ref,
            score: 0,
            metadata,
        }
    }

    /// Whether the validity window is in order: where both bounds are
    /// present, the start is not later than the end.
    pub open spec fn window_ordered(self) -> bool {
        self.valid_from is Some && self.valid_until is Some ==> self.valid_from->0
            <= self.valid_until->0
    }
}

impl View for Item {
    type V = ItemView;

    open spec fn view(&self) -> ItemView {
        ItemView {
            id: self.id,
            owner: self.owner,
            created_by: self.created_by,
            created_at: self.created_at,
            valid_from: self.valid_from,
            valid_until: self.valid_until,
            certificate_ref: self.certificate_ref,
            score: self.score,
            metadata: self.metadata@,
        }
    }
}

impl Item {
    /// Builds a record from its parts.
    ///
    /// The `score` argument is accepted and discarded: every record starts
    /// at score zero, whatever its creator asks for.
    pub fn new(
        id: TypeID,
        owner: AccountId,
        created_by: AccountId,
        created_at: Moment,
        valid_from: Option<Moment>,
        valid_until: Option<Moment>,
        certificate_ref: Option<TypeID>,
        score: u32,
        metadata: Content,
    ) -> (item: Item)
        ensures
            item@ == ItemView::created(
                id,
                owner,
                created_by,
                created_at,
                valid_from,
                valid_until,
                certificate_ref,
                metadata@,
            ),
    {
        let _ = score;
        Item {
            id,
            owner,
            created_by,
            created_at,
            valid_from,
            valid_until,
            certificate_ref,
            score: 0,
            metadata,
        }
    }

    /// Whether the validity window is in order: where both bounds are
    /// present, the start is not later than the end. The ledger stores
    /// records either way; a host that wants to refuse a disordered window
    /// asks here first.
    pub fn has_ordered_window(&self) -> (ordered: bool)
        ensures
            ordered == self@.window_ordered(),
    {
        match (self.valid_from, self.valid_until) {
            (Some(from), Some(until)) => from <= until,
            _ => true,
        }
    }
}

impl Clone for Item {
    /// A copy that holds the same values as the record.
    fn clone(&self) -> (copy: Item)
        ensures
            copy@ == self@,
    {
        let metadata = self.metadata.clone();
        assert(metadata@ =~= self.metadata@);
        Item {
            id: self.id,
            owner: self.owner,
            created_by: self.created_by,
            created_at: self.created_at,
            valid_from: self.valid_from,
            valid_until: self.valid_until,
            certificate_ref: self.certificate_ref,
            score: self.score,
            metadata,
        }
    }
}

} // verus!
