//! A channel-listing DAO with community price discovery.
//!
//! Broadcasters register channels; viewers vote on a price tier during a
//! fixed 30-minute window; the winning tier is finalized deterministically;
//! viewers then pay the finalized price, which is split between the
//! broadcaster (accrued on the channel) and the DAO treasury; the
//! broadcaster claims the accrued share.
//!
//! The hosting ledger runtime (atomic transactions, persistent keyed
//! records, signer verification, wall-clock time, native value transfer)
//! is an external collaborator: every operation here takes the current
//! time and the signing identity as plain arguments and works on an
//! explicit in-memory record store.

pub mod engine;
pub mod errors;
pub mod identity;
pub mod laws;
pub mod records;
