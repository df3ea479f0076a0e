//! Verified accounting core of a fungible-token ledger.
//!
//! The library keeps per-account balances, time-bounded spending allowances,
//! a singleton administrator, and per-account freeze flags in an explicit
//! state value, [`contract::Token`]. The enclosing execution environment is
//! modelled by plain parameters: an [`contract::AuthContext`] carries the
//! identity that authorized the current invocation, and a `now` argument
//! carries the current logical time (a ledger sequence number) wherever an
//! expiration has to be judged. Every operation either succeeds and applies
//! its whole effect, or fails with a [`error::TokenError`] and leaves the
//! state exactly as it was.

pub mod admin;
pub mod allowance;
pub mod balance;
pub mod contract;
pub mod error;
pub mod events;
pub mod laws;
pub mod metadata;
pub mod storage_types;
