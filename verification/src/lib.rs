//! Reward-distribution engine for registered node credentials.
//!
//! The library is the authorization and entitlement state machine of the
//! system: pure validators that decide whether a claim, deposit, withdraw or
//! administrative request is valid against persisted per-entity state, and
//! the bookkeeping that changes atomically with each accepted request.
//!
//! The surrounding ledger is an external collaborator: it stores the
//! entities, verifies signatures, supplies the clock, derives escrow
//! addresses and executes the transfer instructions that the validators
//! emit.  The validators receive those services' outputs as plain values
//! and never perform I/O themselves.

pub mod admin_ops;
pub mod claims;
pub mod credential;
pub mod errors;
pub mod escrow;
pub mod funding;
pub mod laws;
pub mod node_registry;
pub mod pubkey;
pub mod state;
pub mod transfer;

pub use pubkey::Pubkey;
