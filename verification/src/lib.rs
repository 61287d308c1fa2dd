//! Authorization and state-management core of a merchant-payments ledger.
//!
//! The core tracks a registry of merchants with activation and verification
//! flags, an accepted-token allow-list with a per-token fee schedule, and a
//! ledger of invoices, all guarded by a single admin principal and a
//! reentrancy lock. It runs inside a host ledger environment that supplies
//! persistent storage, signer verification, a clock and an event log; the
//! state those collaborators hold is modelled here as one explicit value, so
//! that every entry point is a verified function from state and arguments to
//! next state and result, failing with a tagged code and no partial effect.

pub mod account;
pub mod errors;
pub mod events;
pub mod guard;
pub mod invoices;
pub mod laws;
pub mod merchants;
pub mod shade;
pub mod tokens;
pub mod types;
