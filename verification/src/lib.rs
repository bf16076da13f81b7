//! A ledger of credential records ("items"), each held by an owning account.
//!
//! The ledger hands out record identifiers in increasing order, keeps every
//! live record under its identifier and under its owner, and lets an account
//! revoke the records listed under it. Every operation is verified against a
//! mathematical model of the ledger, found in [`model`]; the properties that
//! hold across sequences of operations are proved in [`laws`].

pub mod allocator;
pub mod item;
pub mod laws;
pub mod model;
pub mod pallet;
pub mod store;
pub mod types;

pub use allocator::IdentifierAllocator;
pub use item::{Item, ItemView};
pub use model::{Call, Creation, LedgerState, StoreState};
pub use pallet::Pallet;
pub use store::RecordStore;
pub use types::{AccountId, Content, Error, Event, Moment, TypeID};
