//! A single-item, english-style auction engine.
//!
//! The engine owns the auction lifecycle state machine: it validates each
//! operation (create, bid, finalize, cancel, withdraw-unsold, update
//! settings), computes the legal next state, and hands back the custody
//! transfers and the audit event that the host ledger must apply atomically
//! for that transition. The host — account plumbing, signature checking,
//! the clock, and the actual currency and asset moves — stays outside; it
//! feeds the engine plain values (resolved identities, the current time)
//! and performs the returned transfer instructions.

pub mod auction;
pub mod custody;
pub mod errors;
pub mod events;
pub mod laws;
