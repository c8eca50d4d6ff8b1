//! A two-party value-custody engine.
//!
//! A seller locks a fungible asset amount into a custody vault while a buyer
//! satisfies an off-chain payment condition.  The funds are then released to
//! the buyer, self-refunded to the seller after a timeout, or arbitrated by a
//! designated admin on dispute.  This crate holds the trade lifecycle state
//! machine, its authorization rules, and the orchestration of custody
//! transfers, each operation verified against its contract.  The surrounding
//! runtime (value ledger, identity verification, wall clock, storage) acts
//! through plain values at the crate's boundary.

pub mod codec;
pub mod engine;
pub mod errors;
pub mod laws;
pub mod state;
pub mod transitions;
pub mod vault;
