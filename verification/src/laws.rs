//! The laws of the ledger: properties that relate several operations, proved
//! once and for all from the operations' own contracts.
//!
//! Each proof function takes the states an execution went through and the
//! relations the operations' `ensures` establish between them, and concludes
//! what the law states.

use vstd::prelude::*;

use crate::allowance::spend_allowance_post;
use crate::balance::receive_balance_post;
use crate::balance::spend_balance_post;
use crate::contract::AuthContext;
use crate::contract::Token;
use crate::error::TokenError;

verus! {

/// Crediting an account and then debiting it by the same non-negative amount
/// restores every balance to what it was before the credit; the debit cannot
/// fail.
pub proof fn lemma_credit_then_debit_restores(
    t0: Token,
    t1: Token,
    t2: Token,
    a: u64,
    x: i128,
    r: Result<(), TokenError>,
)
    requires
        t0.wf(),
        x >= 0,
        t0.balance_of(a) + x <= i128::MAX,
        receive_balance_post(t0, t1, a, x),
        spend_balance_post(t1, t2, a, x, r),
    ensures
        r is Ok,
        forall|acct: u64| t2.balance_of(acct) == t0.balance_of(acct),
{
    assert forall|acct: u64| t2.balance_of(acct) == t0.balance_of(acct) by {
        if acct != a {
            assert(t2.balance_of(acct) == t1.balance_of(acct));
        }
    }
}

/// A debit that asks for more than the account holds always fails with
/// `InsufficientFunds` and leaves every balance unchanged.
pub proof fn lemma_debit_insufficient_funds(
    t0: Token,
    t1: Token,
    a: u64,
    x: i128,
    r: Result<(), TokenError>,
)
    requires
        t0.wf(),
        x >= 0,
        t0.balance_of(a) < x,
        spend_balance_post(t0, t1, a, x, r),
    ensures
        r == Err::<(), TokenError>(TokenError::InsufficientFunds),
        forall|acct: u64| t1.balance_of(acct) == t0.balance_of(acct),
{
}

/// An `approve` of a positive amount whose expiration already lies in the
/// past always fails with `InvalidExpiration`, and no record is written or
/// changed.
pub proof fn lemma_approve_past_expiration_rejected(
    t0: Token,
    t1: Token,
    auth: AuthContext,
    now: u32,
    from: u64,
    spender: u64,
    amount: i128,
    expiration_ledger: u32,
    r: Result<(), TokenError>,
)
    requires
        auth.authorizes(from),
        amount > 0,
        expiration_ledger < now,
        Token::approve_post(t0, t1, auth, now, from, spender, amount, expiration_ledger, r),
    ensures
        r == Err::<(), TokenError>(TokenError::InvalidExpiration),
        t1.same_state(t0),
        forall|f2: u64, s2: u64| t1.stored_allowance(f2, s2) == t0.stored_allowance(f2, s2),
{
}

/// An allowance whose stored expiration lies before the current time reads
/// as amount 0, whatever integer the record still holds.
pub proof fn lemma_expired_allowance_reads_zero(t: Token, now: u32, from: u64, spender: u64)
    requires
        t.stored_allowance(from, spender).expiration_ledger < now,
    ensures
        t.effective_allowance(now, from, spender).amount == 0,
{
}

/// A positive spend against an allowance whose stored expiration lies before
/// the current time always fails, whatever integer the record still holds,
/// and changes nothing.
pub proof fn lemma_expired_allowance_blocks_spend(
    t0: Token,
    t1: Token,
    now: u32,
    from: u64,
    spender: u64,
    amount: i128,
    r: Result<(), TokenError>,
)
    requires
        t0.wf(),
        amount > 0,
        t0.stored_allowance(from, spender).expiration_ledger < now,
        spend_allowance_post(t0, t1, now, from, spender, amount, r),
    ensures
        r == Err::<(), TokenError>(TokenError::InsufficientAllowance),
        t1.same_state(t0),
{
}

/// Spending never succeeds for more than the effective (non-expired)
/// allowance, and never drives the stored amount below 0.
pub proof fn lemma_spend_allowance_bounded(
    t0: Token,
    t1: Token,
    now: u32,
    from: u64,
    spender: u64,
    amount: i128,
    r: Result<(), TokenError>,
)
    requires
        t0.wf(),
        amount >= 0,
        spend_allowance_post(t0, t1, now, from, spender, amount, r),
    ensures
        r is Ok ==> amount <= t0.effective_allowance(now, from, spender).amount,
        t1.stored_allowance(from, spender).amount >= 0,
{
}

/// A successful `transfer` conserves tokens: the two touched balances trade
/// exactly `amount` between them and every other balance stays, so the total
/// of all balances only ever changes through `mint` and `burn`.
pub proof fn lemma_transfer_conserves_balances(
    t0: Token,
    t1: Token,
    auth: AuthContext,
    from: u64,
    to: u64,
    amount: i128,
)
    requires
        Token::transfer_post(t0, t1, auth, from, to, amount, Ok(())),
    ensures
        t1.balance_of(from) + t1.balance_of(to) == t0.balance_of(from) + t0.balance_of(to) || from
            == to,
        from == to ==> t1.balance_of(from) == t0.balance_of(from),
        forall|a: u64| a != from && a != to ==> t1.balance_of(a) == t0.balance_of(a),
{
}

/// While the sender is frozen, a positive authorized `transfer` out of it
/// always fails with `AccountFrozen` and changes nothing.
pub proof fn lemma_frozen_blocks_transfer(
    t0: Token,
    t1: Token,
    auth: AuthContext,
    from: u64,
    to: u64,
    amount: i128,
    r: Result<(), TokenError>,
)
    requires
        auth.authorizes(from),
        amount > 0,
        t0.frozen_flag(from),
        Token::transfer_post(t0, t1, auth, from, to, amount, r),
    ensures
        r == Err::<(), TokenError>(TokenError::AccountFrozen),
        t1.same_state(t0),
{
}

/// While the account is frozen, a positive authorized `burn` out of it
/// always fails with `AccountFrozen` and changes nothing.
pub proof fn lemma_frozen_blocks_burn(
    t0: Token,
    t1: Token,
    auth: AuthContext,
    from: u64,
    amount: i128,
    r: Result<(), TokenError>,
)
    requires
        auth.authorizes(from),
        amount > 0,
        t0.frozen_flag(from),
        Token::burn_post(t0, t1, auth, from, amount, r),
    ensures
        r == Err::<(), TokenError>(TokenError::AccountFrozen),
        t1.same_state(t0),
{
}

/// While the owner is frozen, a positive authorized `transfer_from` out of
/// it always fails with `AccountFrozen`, whatever the allowance, and changes
/// nothing.
pub proof fn lemma_frozen_blocks_transfer_from(
    t0: Token,
    t1: Token,
    auth: AuthContext,
    now: u32,
    spender: u64,
    from: u64,
    to: u64,
    amount: i128,
    r: Result<(), TokenError>,
)
    requires
        auth.authorizes(spender),
        amount > 0,
        t0.frozen_flag(from),
        Token::transfer_from_post(t0, t1, auth, now, spender, from, to, amount, r),
    ensures
        r == Err::<(), TokenError>(TokenError::AccountFrozen),
        t1.same_state(t0),
{
}

/// `mint` does not consult the freeze flag: the administrator can credit a
/// frozen account, and the credit lands in full.
pub proof fn lemma_mint_ignores_freeze(
    t0: Token,
    t1: Token,
    auth: AuthContext,
    to: u64,
    amount: i128,
    r: Result<(), TokenError>,
)
    requires
        amount >= 0,
        t0.initialized(),
        auth.authorizes(t0.admin.unwrap()),
        t0.frozen_flag(to),
        Token::mint_post(t0, t1, auth, to, amount, r),
    ensures
        r is Ok,
        t1.balance_of(to) == t0.balance_of(to) + amount,
        t1.frozen_flag(to),
{
}

/// `initialize` run twice on the same ledger always fails the second time
/// with `AlreadyInitialized`, and the administrator of the first call stays.
pub proof fn lemma_initialize_second_call_fails(
    t0: Token,
    t1: Token,
    t2: Token,
    admin1: u64,
    decimal1: u32,
    name1: String,
    symbol1: String,
    admin2: u64,
    decimal2: u32,
    name2: String,
    symbol2: String,
    r2: Result<(), TokenError>,
)
    requires
        t0.wf(),
        Token::initialize_post(t0, t1, admin1, decimal1, name1, symbol1, Ok(())),
        Token::initialize_post(t1, t2, admin2, decimal2, name2, symbol2, r2),
    ensures
        r2 == Err::<(), TokenError>(TokenError::AlreadyInitialized),
        t1.admin == Some(admin1),
        t2.admin == Some(admin1),
        t2.same_state(t1),
{
}

} // verus!
