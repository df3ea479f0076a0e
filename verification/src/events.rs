//! Domain events emitted by successful operations.

use vstd::prelude::*;

verus! {

/// What a successful operation reports to the outside world. The ledger
/// appends one event per successful mutating token operation, oldest first.
#[derive(Clone, Copy, Debug, PartialEq, Eq, Structural)]
pub enum TokenEvent {
    /// The administrator credited `amount` to `to`.
    Mint { admin: u64, to: u64, amount: i128 },
    /// The administrator handed the role to `new_admin`.
    SetAdmin { admin: u64, new_admin: u64 },
    /// The administrator froze `account`.
    Freeze { admin: u64, account: u64 },
    /// The administrator unfroze `account`.
    Unfreeze { admin: u64, account: u64 },
    /// `from` allowed `spender` to draw up to `amount` until `expiration_ledger`.
    Approve { from: u64, spender: u64, amount: i128, expiration_ledger: u32 },
    /// `amount` moved from `from` to `to`.
    Transfer { from: u64, to: u64, amount: i128 },
    /// `amount` was destroyed out of `from`.
    Burn { from: u64, amount: i128 },
}

} // verus!
