//! The allowance ledger: owner-to-spender spending limits with hard
//! expirations.
//!
//! Records live in the short-lived storage tier. A record written with a
//! positive amount gets a lifetime of exactly `expiration_ledger - now`, so
//! the store may evict it once that time has passed; eviction is
//! indistinguishable from the record reading as amount 0. Expiry is lazy:
//! readers derive the effective amount from the stored record and the clock,
//! and no sweeper ever rewrites a stale record.

use vstd::prelude::*;

use crate::contract::Token;
use crate::error::TokenError;
use crate::storage_types::allowance_key;
use crate::storage_types::lemma_allowance_key_injective;
use crate::storage_types::AllowanceDataKey;
use crate::storage_types::AllowanceValue;

verus! {

broadcast use vstd::std_specs::hash::group_hash_axioms;

/// Whether writing a record goes through: a positive amount whose expiration
/// already lies in the past is refused, while amount 0 may carry any
/// expiration (that is how an allowance is revoked).
pub open spec fn write_allowance_result(now: u32, amount: i128, expiration_ledger: u32) -> Result<
    (),
    TokenError,
> {
    if amount > 0 && expiration_ledger < now {
        Err(TokenError::InvalidExpiration)
    } else {
        Ok(())
    }
}

/// Whether spending `amount` goes through: it fails with
/// `InsufficientAllowance` exactly when the effective (non-expired) amount
/// is short.
pub open spec fn spend_allowance_result(
    pre: Token,
    now: u32,
    from: u64,
    spender: u64,
    amount: i128,
) -> Result<(), TokenError> {
    if pre.effective_allowance(now, from, spender).amount < amount {
        Err(TokenError::InsufficientAllowance)
    } else {
        Ok(())
    }
}

/// How writing a record relates the state before to the state after: on
/// success the one record holds exactly what was handed in and nothing else
/// moves; on failure nothing moves at all.
pub open spec fn write_allowance_post(
    pre: Token,
    post: Token,
    now: u32,
    from: u64,
    spender: u64,
    amount: i128,
    expiration_ledger: u32,
    r: Result<(), TokenError>,
) -> bool {
    &&& post.wf()
    &&& r == write_allowance_result(now, amount, expiration_ledger)
    &&& (r is Ok ==> post.stored_allowance(from, spender) == (AllowanceValue {
        amount,
        expiration_ledger,
    }))
    &&& (r is Ok ==> (forall|f2: u64, s2: u64|
        !(f2 == from && s2 == spender) ==> post.stored_allowance(f2, s2)
            == pre.stored_allowance(f2, s2)))
    &&& (r is Ok ==> post.same_admin(pre) && post.same_balances(pre) && post.same_frozen(pre)
        && post.same_metadata(pre) && post.same_events(pre))
    &&& (r is Err ==> post.same_state(pre))
}

/// How spending relates the state before to the state after: on success the
/// one record shrinks by `amount` with its expiration untouched and nothing
/// else moves; on failure nothing moves at all.
pub open spec fn spend_allowance_post(
    pre: Token,
    post: Token,
    now: u32,
    from: u64,
    spender: u64,
    amount: i128,
    r: Result<(), TokenError>,
) -> bool {
    let eff = pre.effective_allowance(now, from, spender);
    &&& post.wf()
    &&& r == spend_allowance_result(pre, now, from, spender, amount)
    &&& (r is Ok ==> post.stored_allowance(from, spender) == (AllowanceValue {
        amount: (eff.amount - amount) as i128,
        expiration_ledger: eff.expiration_ledger,
    }))
    &&& (r is Ok ==> (forall|f2: u64, s2: u64|
        !(f2 == from && s2 == spender) ==> post.stored_allowance(f2, s2)
            == pre.stored_allowance(f2, s2)))
    &&& (r is Ok ==> post.same_admin(pre) && post.same_balances(pre) && post.same_frozen(pre)
        && post.same_metadata(pre) && post.same_events(pre))
    &&& (r is Err ==> post.same_state(pre))
}

/// The storage key of the `(from, spender)` allowance record. Public so an
/// embedding that seeds a ledger from a durable store can place a record
/// under the key the core reads.
pub fn allowance_storage_key(from: u64, spender: u64) -> (k: u128)
    ensures
        k == allowance_key(AllowanceDataKey { from, spender }),
{
    (from as u128) * 0x1_0000_0000_0000_0000 + (spender as u128)
}

/// The allowance `from` granted `spender`, as observed at time `now`: the
/// stored record, except that an expired record reads as amount 0 with its
/// stored expiration still visible.
pub fn read_allowance(t: &Token, now: u32, from: u64, spender: u64) -> (r: AllowanceValue)
    ensures
        r == t.effective_allowance(now, from, spender),
{
    let key = allowance_storage_key(from, spender);
    match t.allowances.get(&key) {
        Some(a) => {
            if a.expiration_ledger < now {
                AllowanceValue { amount: 0, expiration_ledger: a.expiration_ledger }
            } else {
                *a
            }
        },
        None => AllowanceValue { amount: 0, expiration_ledger: 0 },
    }
}

/// Writes the record for `(from, spender)`. A positive amount must not
/// already be expired; on success the record's remaining lifetime in the
/// short-lived tier is `expiration_ledger - now` whenever the amount is
/// positive, which the refused case keeps from underflowing.
pub fn write_allowance(
    t: &mut Token,
    now: u32,
    from: u64,
    spender: u64,
    amount: i128,
    expiration_ledger: u32,
) -> (r: Result<(), TokenError>)
    requires
        old(t).wf(),
        amount >= 0,
    ensures
        write_allowance_post(*old(t), *final(t), now, from, spender, amount, expiration_ledger, r),
{
    if amount > 0 && expiration_ledger < now {
        return Err(TokenError::InvalidExpiration);
    }
    let key = allowance_storage_key(from, spender);
    t.allowances.insert(key, AllowanceValue { amount, expiration_ledger });
    proof {
        assert forall|f2: u64, s2: u64| !(f2 == from && s2 == spender) implies t.stored_allowance(
            f2,
            s2,
        ) == old(t).stored_allowance(f2, s2) by {
            let k2 = AllowanceDataKey { from: f2, spender: s2 };
            let k = AllowanceDataKey { from, spender };
            if allowance_key(k2) == allowance_key(k) {
                lemma_allowance_key_injective(k2, k);
            }
        }
    }
    Ok(())
}

/// Draws `amount` from the effective allowance of `(from, spender)`, leaving
/// the expiration as it was, or fails with `InsufficientAllowance` and
/// changes nothing.
pub fn spend_allowance(t: &mut Token, now: u32, from: u64, spender: u64, amount: i128) -> (r:
    Result<(), TokenError>)
    requires
        old(t).wf(),
        amount >= 0,
    ensures
        spend_allowance_post(*old(t), *final(t), now, from, spender, amount, r),
{
    let allowance = read_allowance(t, now, from, spender);
    if allowance.amount < amount {
        return Err(TokenError::InsufficientAllowance);
    }
    let r = write_allowance(t, now, from, spender, allowance.amount - amount,
        allowance.expiration_ledger);
    proof {
        assert(r is Ok);
    }
    r
}

} // verus!
