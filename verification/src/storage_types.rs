//! The record types the ledger stores, and the keys they are stored under.

use vstd::prelude::*;

verus! {

/// Identifies the allowance an owner granted to a spender.
#[derive(Clone, Copy, Debug, PartialEq, Eq, Structural)]
pub struct AllowanceDataKey {
    pub from: u64,
    pub spender: u64,
}

/// A stored allowance record. A record whose `expiration_ledger` lies before
/// the current time grants nothing, whatever `amount` it still holds: readers
/// derive the effective amount from the record and the clock, and the stored
/// integer is only rewritten by the next explicit write.
#[derive(Clone, Copy, Debug, PartialEq, Eq, Structural)]
pub struct AllowanceValue {
    pub amount: i128,
    pub expiration_ledger: u32,
}

/// Name, symbol and decimal count of the token.
#[derive(Clone, Debug)]
pub struct TokenMetadata {
    pub decimal: u32,
    pub name: String,
    pub symbol: String,
}

/// The single storage slot the allowance of `key` lives under. Distinct
/// pairs get distinct slots: each account identifier fills one 64-bit half
/// of the 128-bit value.
pub open spec fn allowance_key(key: AllowanceDataKey) -> u128 {
    ((key.from as int) * 0x1_0000_0000_0000_0000 + (key.spender as int)) as u128
}

/// Distinct `(owner, spender)` pairs never share a storage slot.
pub proof fn lemma_allowance_key_injective(k1: AllowanceDataKey, k2: AllowanceDataKey)
    requires
        allowance_key(k1) == allowance_key(k2),
    ensures
        k1 == k2,
{
    let v1: int = (k1.from as int) * 0x1_0000_0000_0000_0000 + (k1.spender as int);
    let v2: int = (k2.from as int) * 0x1_0000_0000_0000_0000 + (k2.spender as int);
    assert(0 <= v1 < 0x1_0000_0000_0000_0000_0000_0000_0000_0000);
    assert(0 <= v2 < 0x1_0000_0000_0000_0000_0000_0000_0000_0000);
    assert(v1 == v2);
}

/// How many ledger units of lifetime the instance entry is refreshed to on
/// each mutating call that touches the long-lived tier.
pub const INSTANCE_BUMP_AMOUNT: u32 = 5088;

/// Below this much remaining lifetime the instance entry is refreshed.
pub const INSTANCE_LIFETIME_THRESHOLD: u32 = 5088;

/// How many ledger units of lifetime a balance entry is refreshed to on
/// every read or write of it.
pub const BALANCE_BUMP_AMOUNT: u32 = 5088;

/// Below this much remaining lifetime a balance entry is refreshed.
pub const BALANCE_LIFETIME_THRESHOLD: u32 = 5088;

} // verus!
