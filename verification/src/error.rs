//! The ways an operation of the ledger can fail.

use vstd::prelude::*;

verus! {

/// Why an operation was refused. Detection aborts the whole operation: the
/// caller sees the error and a ledger state exactly as before the call.
#[derive(Clone, Copy, Debug, PartialEq, Eq, Structural)]
pub enum TokenError {
    /// `initialize` found an administrator already in place.
    AlreadyInitialized,
    /// An admin-gated operation ran before any administrator was written.
    NotInitialized,
    /// The invocation was not authorized by the identity the operation needs.
    Unauthorized,
    /// A token amount below zero was handed in.
    NegativeAmount,
    /// A debit asked for more than the account holds.
    InsufficientFunds,
    /// A spender asked for more than the effective allowance.
    InsufficientAllowance,
    /// An allowance with a positive amount would already be expired.
    InvalidExpiration,
    /// The account is frozen and may not move tokens out.
    AccountFrozen,
    /// The decimal count of the metadata does not fit in eight bits.
    DecimalOutOfRange,
}

} // verus!
