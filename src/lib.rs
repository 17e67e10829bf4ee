//! A proof-of-existence registry: signed principals register, revoke and
//! transfer ownership of opaque byte strings ("claims"), each anchored to the
//! ledger position at which it was last written.

pub mod laws;
mod pallet;
mod store;

pub use store::{AccountId, BlockNumber, Entry, Proofs};
pub use pallet::{
    bounded, create_step, revoke_step, transfer_step, Config, Error, Event, EventView, Pallet,
};
