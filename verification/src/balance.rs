//! The balance ledger: per-account credits and debits.
//!
//! Balances live in the long-lived storage tier; the embedding refreshes an
//! entry's remaining lifetime to `BALANCE_BUMP_AMOUNT` on every read or
//! write, and a fully evicted entry is indistinguishable from balance 0.

use vstd::prelude::*;

use crate::contract::Token;
use crate::error::TokenError;

verus! {

broadcast use vstd::std_specs::hash::group_hash_axioms;

/// Whether a debit of `amount` from `addr` goes through: it fails with
/// `InsufficientFunds` exactly when the balance is short.
pub open spec fn spend_balance_result(pre: Token, addr: u64, amount: i128) -> Result<
    (),
    TokenError,
> {
    if pre.balance_of(addr) < amount {
        Err(TokenError::InsufficientFunds)
    } else {
        Ok(())
    }
}

/// How a credit of `amount` to `addr` relates the state before to the state
/// after: the one balance grows by `amount` and nothing else moves.
pub open spec fn receive_balance_post(pre: Token, post: Token, addr: u64, amount: i128) -> bool {
    &&& post.wf()
    &&& post.balance_of(addr) == pre.balance_of(addr) + amount
    &&& (forall|a: u64| a != addr ==> post.balance_of(a) == pre.balance_of(a))
    &&& post.same_admin(pre)
    &&& post.same_allowances(pre)
    &&& post.same_frozen(pre)
    &&& post.same_metadata(pre)
    &&& post.same_events(pre)
}

/// How a debit of `amount` from `addr` relates the state before to the state
/// after: on success the one balance shrinks by `amount` and nothing else
/// moves; on failure nothing moves at all.
pub open spec fn spend_balance_post(
    pre: Token,
    post: Token,
    addr: u64,
    amount: i128,
    r: Result<(), TokenError>,
) -> bool {
    &&& post.wf()
    &&& r == spend_balance_result(pre, addr, amount)
    &&& (r is Ok ==> post.balance_of(addr) == pre.balance_of(addr) - amount)
    &&& (r is Ok ==> (forall|a: u64| a != addr ==> post.balance_of(a) == pre.balance_of(a)))
    &&& (r is Ok ==> post.same_admin(pre) && post.same_allowances(pre) && post.same_frozen(pre)
        && post.same_metadata(pre) && post.same_events(pre))
    &&& (r is Err ==> post.same_state(pre))
}

/// The balance of `addr`, 0 where no entry exists. Reading also refreshes
/// the entry's lifetime window in the embedding's store; the balance itself
/// is untouched.
pub fn read_balance(t: &Token, addr: u64) -> (r: i128)
    ensures
        r == t.balance_of(addr),
{
    match t.balances.get(&addr) {
        Some(b) => *b,
        None => 0,
    }
}

/// Stores `amount` as the balance of `addr`.
fn write_balance(t: &mut Token, addr: u64, amount: i128)
    requires
        old(t).wf(),
        amount >= 0,
    ensures
        final(t).wf(),
        final(t).balances@ == old(t).balances@.insert(addr, amount),
        final(t).same_admin(*old(t)),
        final(t).same_allowances(*old(t)),
        final(t).same_frozen(*old(t)),
        final(t).same_metadata(*old(t)),
        final(t).same_events(*old(t)),
{
    t.balances.insert(addr, amount);
}

/// Credits `amount` to `addr`. Unconditional success: the caller has already
/// checked the amount, and the sum must fit the balance type.
pub fn receive_balance(t: &mut Token, addr: u64, amount: i128)
    requires
        old(t).wf(),
        amount >= 0,
        old(t).balance_of(addr) + amount <= i128::MAX,
    ensures
        receive_balance_post(*old(t), *final(t), addr, amount),
{
    let balance = read_balance(t, addr);
    write_balance(t, addr, balance + amount);
}

/// Debits `amount` from `addr`, or fails with `InsufficientFunds` and
/// changes nothing.
pub fn spend_balance(t: &mut Token, addr: u64, amount: i128) -> (r: Result<(), TokenError>)
    requires
        old(t).wf(),
        amount >= 0,
    ensures
        spend_balance_post(*old(t), *final(t), addr, amount, r),
{
    let balance = read_balance(t, addr);
    if balance < amount {
        return Err(TokenError::InsufficientFunds);
    }
    write_balance(t, addr, balance - amount);
    Ok(())
}

} // verus!
