//! The ledger state and the orchestrated token operations.

use std::collections::HashMap;
use std::collections::HashSet;
use vstd::prelude::*;

use crate::admin::has_administrator;
use crate::admin::read_administrator;
use crate::admin::read_administrator_result;
use crate::admin::write_administrator;
use crate::allowance::read_allowance;
use crate::allowance::spend_allowance;
use crate::allowance::write_allowance;
use crate::allowance::write_allowance_result;
use crate::balance::read_balance;
use crate::balance::receive_balance;
use crate::balance::spend_balance;
use crate::balance::spend_balance_result;
use crate::error::TokenError;
use crate::events::TokenEvent;
use crate::metadata::read_decimal;
use crate::metadata::read_name;
use crate::metadata::read_symbol;
use crate::metadata::write_metadata;
use crate::storage_types::allowance_key;
use crate::storage_types::AllowanceDataKey;
use crate::storage_types::AllowanceValue;
use crate::storage_types::TokenMetadata;

verus! {

broadcast use vstd::std_specs::hash::group_hash_axioms;

/// Proof, furnished by the enclosing environment and checked there, that the
/// identity `id` authorized the current invocation. Threading it as an
/// explicit value keeps the core free of ambient state: an operation gated on
/// some identity compares that identity against `id`.
#[derive(Clone, Copy, Debug, PartialEq, Eq, Structural)]
pub struct AuthContext {
    pub id: u64,
}

impl AuthContext {
    /// Whether this context proves that `who` authorized the invocation.
    pub open spec fn authorizes(self, who: u64) -> bool {
        self.id == who
    }
}

/// The whole state of one token ledger.
///
/// Balances live in the long-lived storage tier (absence means 0), allowance
/// records in the short-lived tier under the key of their `(owner, spender)`
/// pair, the freeze flags are presence-only, and `events` collects what each
/// successful operation reports. The enclosing environment serializes
/// invocations, so each operation owns the state for its whole duration.
pub struct Token {
    /// The singleton administrator slot: absent until `initialize`.
    pub admin: Option<u64>,
    /// Account identifier to balance. A missing entry means balance 0.
    pub balances: HashMap<u64, i128>,
    /// Encoded `(owner, spender)` key to the stored allowance record.
    pub allowances: HashMap<u128, AllowanceValue>,
    /// Accounts currently frozen: presence is the flag.
    pub frozen: HashSet<u64>,
    /// Name, symbol and decimals: absent until `initialize` writes them.
    pub metadata: Option<TokenMetadata>,
    /// Every event emitted by a successful operation, oldest first.
    pub events: Vec<TokenEvent>,
}

impl Token {
    /// The state invariant: no stored balance and no stored allowance amount
    /// is ever negative.
    pub open spec fn wf(self) -> bool {
        &&& forall|a: u64| #[trigger] self.balances@.contains_key(a) ==> self.balances@[a] >= 0
        &&& forall|k: u128| #[trigger]
            self.allowances@.contains_key(k) ==> self.allowances@[k].amount >= 0
    }

    /// Whether an administrator has been written.
    pub open spec fn initialized(self) -> bool {
        self.admin is Some
    }

    /// The balance of `a`: the stored amount, or 0 where no entry exists.
    pub open spec fn balance_of(self, a: u64) -> i128 {
        if self.balances@.contains_key(a) {
            self.balances@[a]
        } else {
            0
        }
    }

    /// The allowance record as stored, or `(0, 0)` where no entry exists.
    pub open spec fn stored_allowance(self, from: u64, spender: u64) -> AllowanceValue {
        let slot = allowance_key(AllowanceDataKey { from, spender });
        if self.allowances@.contains_key(slot) {
            self.allowances@[slot]
        } else {
            AllowanceValue { amount: 0, expiration_ledger: 0 }
        }
    }

    /// What a reader at time `now` observes: the stored record, except that a
    /// record expired before `now` grants amount 0 while keeping its stored
    /// expiration visible.
    pub open spec fn effective_allowance(self, now: u32, from: u64, spender: u64) -> AllowanceValue {
        let stored = self.stored_allowance(from, spender);
        if stored.expiration_ledger < now {
            AllowanceValue { amount: 0, expiration_ledger: stored.expiration_ledger }
        } else {
            stored
        }
    }

    /// Whether `a` carries the freeze flag.
    pub open spec fn frozen_flag(self, a: u64) -> bool {
        self.frozen@.contains(a)
    }

    /// The two states hold the same administrator.
    pub open spec fn same_admin(self, o: Token) -> bool {
        self.admin == o.admin
    }

    /// The two states hold the same balances.
    pub open spec fn same_balances(self, o: Token) -> bool {
        self.balances@ == o.balances@
    }

    /// The two states hold the same allowance records.
    pub open spec fn same_allowances(self, o: Token) -> bool {
        self.allowances@ == o.allowances@
    }

    /// The two states carry the same freeze flags.
    pub open spec fn same_frozen(self, o: Token) -> bool {
        self.frozen@ == o.frozen@
    }

    /// The two states hold the same metadata.
    pub open spec fn same_metadata(self, o: Token) -> bool {
        self.metadata == o.metadata
    }

    /// The two states have emitted the same events.
    pub open spec fn same_events(self, o: Token) -> bool {
        self.events@ == o.events@
    }

    /// The two states are indistinguishable: a failed operation relates its
    /// pre- and post-state by exactly this.
    pub open spec fn same_state(self, o: Token) -> bool {
        &&& self.same_admin(o)
        &&& self.same_balances(o)
        &&& self.same_allowances(o)
        &&& self.same_frozen(o)
        &&& self.same_metadata(o)
        &&& self.same_events(o)
    }

    /// A fresh, uninitialized ledger: no administrator, no balances, no
    /// allowances, no freeze flags, no metadata, no events.
    pub fn new() -> (t: Token)
        ensures
            t.wf(),
            !t.initialized(),
            t.metadata is None,
            t.events@ == Seq::<TokenEvent>::empty(),
            t.balances@ == Map::<u64, i128>::empty(),
            t.allowances@ == Map::<u128, AllowanceValue>::empty(),
            t.frozen@ == Set::<u64>::empty(),
            forall|a: u64| t.balance_of(a) == 0,
            forall|f: u64, s: u64| t.stored_allowance(f, s) == (AllowanceValue {
                amount: 0,
                expiration_ledger: 0,
            }),
            forall|a: u64| !t.frozen_flag(a),
    {
        Token {
            admin: None,
            balances: HashMap::new(),
            allowances: HashMap::new(),
            frozen: HashSet::new(),
            metadata: None,
            events: Vec::new(),
        }
    }
}

impl Token {
    /// Whether `initialize` goes through: it is fatal to recreate the
    /// administrator, and the decimal count must fit in eight bits.
    pub open spec fn initialize_result(pre: Token, decimal: u32) -> Result<(), TokenError> {
        if pre.initialized() {
            Err(TokenError::AlreadyInitialized)
        } else if decimal > 255 {
            Err(TokenError::DecimalOutOfRange)
        } else {
            Ok(())
        }
    }

    /// How `initialize` relates the state before to the state after.
    pub open spec fn initialize_post(
        pre: Token,
        post: Token,
        admin: u64,
        decimal: u32,
        name: String,
        symbol: String,
        r: Result<(), TokenError>,
    ) -> bool {
        &&& post.wf()
        &&& r == Self::initialize_result(pre, decimal)
        &&& (r is Ok ==> post.admin == Some(admin) && post.metadata == Some(
            TokenMetadata { decimal, name, symbol },
        ) && post.same_balances(pre) && post.same_allowances(pre) && post.same_frozen(pre)
            && post.same_events(pre))
        &&& (r is Err ==> post.same_state(pre))
    }

    /// Whether an operation that must be authorized by the administrator
    /// goes through its gate.
    pub open spec fn admin_gate_result(pre: Token, auth: AuthContext) -> Result<(), TokenError> {
        if !pre.initialized() {
            Err(TokenError::NotInitialized)
        } else if !auth.authorizes(pre.admin.unwrap()) {
            Err(TokenError::Unauthorized)
        } else {
            Ok(())
        }
    }

    /// Whether `mint` goes through: the amount is checked first, then the
    /// administrator gate.
    pub open spec fn mint_result(pre: Token, auth: AuthContext, amount: i128) -> Result<
        (),
        TokenError,
    > {
        if amount < 0 {
            Err(TokenError::NegativeAmount)
        } else {
            Self::admin_gate_result(pre, auth)
        }
    }

    /// How `mint` relates the state before to the state after.
    pub open spec fn mint_post(
        pre: Token,
        post: Token,
        auth: AuthContext,
        to: u64,
        amount: i128,
        r: Result<(), TokenError>,
    ) -> bool {
        &&& post.wf()
        &&& r == Self::mint_result(pre, auth, amount)
        &&& (r is Ok ==> post.balance_of(to) == pre.balance_of(to) + amount)
        &&& (r is Ok ==> (forall|a: u64| a != to ==> post.balance_of(a) == pre.balance_of(a)))
        &&& (r is Ok ==> post.events@ == pre.events@.push(
            TokenEvent::Mint { admin: pre.admin.unwrap(), to, amount },
        ))
        &&& (r is Ok ==> post.same_admin(pre) && post.same_allowances(pre) && post.same_frozen(pre)
            && post.same_metadata(pre))
        &&& (r is Err ==> post.same_state(pre))
    }

    /// How `set_admin` relates the state before to the state after.
    pub open spec fn set_admin_post(
        pre: Token,
        post: Token,
        auth: AuthContext,
        new_admin: u64,
        r: Result<(), TokenError>,
    ) -> bool {
        &&& post.wf()
        &&& r == Self::admin_gate_result(pre, auth)
        &&& (r is Ok ==> post.admin == Some(new_admin))
        &&& (r is Ok ==> post.events@ == pre.events@.push(
            TokenEvent::SetAdmin { admin: pre.admin.unwrap(), new_admin },
        ))
        &&& (r is Ok ==> post.same_balances(pre) && post.same_allowances(pre)
            && post.same_frozen(pre) && post.same_metadata(pre))
        &&& (r is Err ==> post.same_state(pre))
    }

    /// How `freeze_account` relates the state before to the state after.
    pub open spec fn freeze_account_post(
        pre: Token,
        post: Token,
        auth: AuthContext,
        account: u64,
        r: Result<(), TokenError>,
    ) -> bool {
        &&& post.wf()
        &&& r == Self::admin_gate_result(pre, auth)
        &&& (r is Ok ==> post.frozen@ == pre.frozen@.insert(account))
        &&& (r is Ok ==> post.events@ == pre.events@.push(
            TokenEvent::Freeze { admin: pre.admin.unwrap(), account },
        ))
        &&& (r is Ok ==> post.same_admin(pre) && post.same_balances(pre)
            && post.same_allowances(pre) && post.same_metadata(pre))
        &&& (r is Err ==> post.same_state(pre))
    }

    /// How `unfreeze_account` relates the state before to the state after.
    pub open spec fn unfreeze_account_post(
        pre: Token,
        post: Token,
        auth: AuthContext,
        account: u64,
        r: Result<(), TokenError>,
    ) -> bool {
        &&& post.wf()
        &&& r == Self::admin_gate_result(pre, auth)
        &&& (r is Ok ==> post.frozen@ == pre.frozen@.remove(account))
        &&& (r is Ok ==> post.events@ == pre.events@.push(
            TokenEvent::Unfreeze { admin: pre.admin.unwrap(), account },
        ))
        &&& (r is Ok ==> post.same_admin(pre) && post.same_balances(pre)
            && post.same_allowances(pre) && post.same_metadata(pre))
        &&& (r is Err ==> post.same_state(pre))
    }

    /// Creates the administrator and the metadata, exactly once per ledger.
    /// The second call on the same ledger fails with `AlreadyInitialized`
    /// and changes nothing; so does a decimal count over eight bits.
    pub fn initialize(&mut self, admin: u64, decimal: u32, name: String, symbol: String) -> (r:
        Result<(), TokenError>)
        requires
            old(self).wf(),
        ensures
            Token::initialize_post(*old(self), *final(self), admin, decimal, name, symbol, r),
    {
        if has_administrator(self) {
            return Err(TokenError::AlreadyInitialized);
        }
        if decimal > 255 {
            return Err(TokenError::DecimalOutOfRange);
        }
        write_administrator(self, admin);
        write_metadata(self, TokenMetadata { decimal, name, symbol });
        Ok(())
    }

    /// Credits `amount` to `to`, gated on the administrator. The freeze flag
    /// of `to` is deliberately not consulted: an administrator may credit a
    /// frozen account; only outbound movement is blocked.
    pub fn mint(&mut self, auth: AuthContext, to: u64, amount: i128) -> (r: Result<(), TokenError>)
        requires
            old(self).wf(),
            Token::mint_result(*old(self), auth, amount) is Ok ==> old(self).balance_of(to)
                + amount <= i128::MAX,
        ensures
            Token::mint_post(*old(self), *final(self), auth, to, amount, r),
    {
        match check_nonnegative_amount(amount) {
            Ok(()) => (),
            Err(e) => { return Err(e) },
        }
        let admin = match read_administrator(self) {
            Ok(a) => a,
            Err(e) => { return Err(e) },
        };
        if auth.id != admin {
            return Err(TokenError::Unauthorized);
        }
        crate::balance::receive_balance(self, to, amount);
        self.events.push(TokenEvent::Mint { admin, to, amount });
        Ok(())
    }

    /// Hands the administrator role to `new_admin`, gated on the current
    /// administrator.
    pub fn set_admin(&mut self, auth: AuthContext, new_admin: u64) -> (r: Result<(), TokenError>)
        requires
            old(self).wf(),
        ensures
            Token::set_admin_post(*old(self), *final(self), auth, new_admin, r),
    {
        let admin = match read_administrator(self) {
            Ok(a) => a,
            Err(e) => { return Err(e) },
        };
        if auth.id != admin {
            return Err(TokenError::Unauthorized);
        }
        write_administrator(self, new_admin);
        self.events.push(TokenEvent::SetAdmin { admin, new_admin });
        Ok(())
    }

    /// Sets the freeze flag of `account`, gated on the administrator.
    pub fn freeze_account(&mut self, auth: AuthContext, account: u64) -> (r: Result<
        (),
        TokenError,
    >)
        requires
            old(self).wf(),
        ensures
            Token::freeze_account_post(*old(self), *final(self), auth, account, r),
    {
        let admin = match read_administrator(self) {
            Ok(a) => a,
            Err(e) => { return Err(e) },
        };
        if auth.id != admin {
            return Err(TokenError::Unauthorized);
        }
        self.frozen.insert(account);
        self.events.push(TokenEvent::Freeze { admin, account });
        Ok(())
    }

    /// Removes the freeze flag of `account`, gated on the administrator.
    pub fn unfreeze_account(&mut self, auth: AuthContext, account: u64) -> (r: Result<
        (),
        TokenError,
    >)
        requires
            old(self).wf(),
        ensures
            Token::unfreeze_account_post(*old(self), *final(self), auth, account, r),
    {
        let admin = match read_administrator(self) {
            Ok(a) => a,
            Err(e) => { return Err(e) },
        };
        if auth.id != admin {
            return Err(TokenError::Unauthorized);
        }
        self.frozen.remove(&account);
        self.events.push(TokenEvent::Unfreeze { admin, account });
        Ok(())
    }

    /// The balance of `id`, under the name the donation front gives it.
    pub fn get_donation_balance(&self, id: u64) -> (r: i128)
        ensures
            r == self.balance_of(id),
    {
        read_balance(self, id)
    }

    /// Whether an administrator has been written.
    pub fn has_administrator(&self) -> (r: bool)
        ensures
            r == self.initialized(),
    {
        has_administrator(self)
    }

    /// The administrator, or `NotInitialized` while none was ever written.
    pub fn read_administrator(&self) -> (r: Result<u64, TokenError>)
        ensures
            r == read_administrator_result(*self),
    {
        read_administrator(self)
    }

    /// Overwrites the administrator slot directly, with no gate: a thin
    /// maintenance entry beside the gated `set_admin`.
    pub fn write_administrator(&mut self, id: u64)
        requires
            old(self).wf(),
        ensures
            final(self).wf(),
            final(self).admin == Some(id),
            final(self).same_balances(*old(self)),
            final(self).same_allowances(*old(self)),
            final(self).same_frozen(*old(self)),
            final(self).same_metadata(*old(self)),
            final(self).same_events(*old(self)),
    {
        write_administrator(self, id);
    }

    /// Overwrites the metadata directly, with no gate.
    pub fn write_metadata(&mut self, metadata: TokenMetadata)
        requires
            old(self).wf(),
        ensures
            final(self).wf(),
            final(self).metadata == Some(metadata),
            final(self).same_admin(*old(self)),
            final(self).same_balances(*old(self)),
            final(self).same_allowances(*old(self)),
            final(self).same_frozen(*old(self)),
            final(self).same_events(*old(self)),
    {
        write_metadata(self, metadata);
    }
}

impl Token {
    /// Whether `approve` goes through: the grantor must have authorized the
    /// call, the amount is checked next, and a positive amount must not
    /// already be expired.
    pub open spec fn approve_result(
        auth: AuthContext,
        now: u32,
        from: u64,
        amount: i128,
        expiration_ledger: u32,
    ) -> Result<(), TokenError> {
        if !auth.authorizes(from) {
            Err(TokenError::Unauthorized)
        } else if amount < 0 {
            Err(TokenError::NegativeAmount)
        } else {
            write_allowance_result(now, amount, expiration_ledger)
        }
    }

    /// How `approve` relates the state before to the state after.
    pub open spec fn approve_post(
        pre: Token,
        post: Token,
        auth: AuthContext,
        now: u32,
        from: u64,
        spender: u64,
        amount: i128,
        expiration_ledger: u32,
        r: Result<(), TokenError>,
    ) -> bool {
        &&& post.wf()
        &&& r == Self::approve_result(auth, now, from, amount, expiration_ledger)
        &&& (r is Ok ==> post.stored_allowance(from, spender) == (AllowanceValue {
            amount,
            expiration_ledger,
        }))
        &&& (r is Ok ==> (forall|f2: u64, s2: u64|
            !(f2 == from && s2 == spender) ==> post.stored_allowance(f2, s2)
                == pre.stored_allowance(f2, s2)))
        &&& (r is Ok ==> post.events@ == pre.events@.push(
            TokenEvent::Approve { from, spender, amount, expiration_ledger },
        ))
        &&& (r is Ok ==> post.same_admin(pre) && post.same_balances(pre) && post.same_frozen(pre)
            && post.same_metadata(pre))
        &&& (r is Err ==> post.same_state(pre))
    }

    /// Whether `transfer` goes through: the sender must have authorized the
    /// call, the amount is checked next, a frozen sender moves nothing out,
    /// and the balance must cover the amount.
    pub open spec fn transfer_result(
        pre: Token,
        auth: AuthContext,
        from: u64,
        amount: i128,
    ) -> Result<(), TokenError> {
        if !auth.authorizes(from) {
            Err(TokenError::Unauthorized)
        } else if amount < 0 {
            Err(TokenError::NegativeAmount)
        } else if pre.frozen_flag(from) {
            Err(TokenError::AccountFrozen)
        } else {
            spend_balance_result(pre, from, amount)
        }
    }

    /// How the balances move when `amount` goes from `from` to `to`: the
    /// total is preserved, and a transfer to oneself moves nothing.
    pub open spec fn balances_moved(
        pre: Token,
        post: Token,
        from: u64,
        to: u64,
        amount: i128,
    ) -> bool {
        &&& (from != to ==> post.balance_of(from) == pre.balance_of(from) - amount)
        &&& (from != to ==> post.balance_of(to) == pre.balance_of(to) + amount)
        &&& (from == to ==> post.balance_of(from) == pre.balance_of(from))
        &&& (forall|a: u64| a != from && a != to ==> post.balance_of(a) == pre.balance_of(a))
    }

    /// How `transfer` relates the state before to the state after.
    pub open spec fn transfer_post(
        pre: Token,
        post: Token,
        auth: AuthContext,
        from: u64,
        to: u64,
        amount: i128,
        r: Result<(), TokenError>,
    ) -> bool {
        &&& post.wf()
        &&& r == Self::transfer_result(pre, auth, from, amount)
        &&& (r is Ok ==> Self::balances_moved(pre, post, from, to, amount))
        &&& (r is Ok ==> post.events@ == pre.events@.push(
            TokenEvent::Transfer { from, to, amount },
        ))
        &&& (r is Ok ==> post.same_admin(pre) && post.same_allowances(pre) && post.same_frozen(pre)
            && post.same_metadata(pre))
        &&& (r is Err ==> post.same_state(pre))
    }

    /// Whether `transfer_from` goes through: the spender must have authorized
    /// the call, then the amount, the sender's freeze flag, the effective
    /// allowance and the sender's balance are checked, in that order.
    pub open spec fn transfer_from_result(
        pre: Token,
        auth: AuthContext,
        now: u32,
        spender: u64,
        from: u64,
        amount: i128,
    ) -> Result<(), TokenError> {
        if !auth.authorizes(spender) {
            Err(TokenError::Unauthorized)
        } else if amount < 0 {
            Err(TokenError::NegativeAmount)
        } else if pre.frozen_flag(from) {
            Err(TokenError::AccountFrozen)
        } else if pre.effective_allowance(now, from, spender).amount < amount {
            Err(TokenError::InsufficientAllowance)
        } else {
            spend_balance_result(pre, from, amount)
        }
    }

    /// How the allowance record of `(from, spender)` is drawn down by
    /// `amount` at time `now`, its expiration untouched, all other records
    /// untouched.
    pub open spec fn allowance_spent(
        pre: Token,
        post: Token,
        now: u32,
        from: u64,
        spender: u64,
        amount: i128,
    ) -> bool {
        let eff = pre.effective_allowance(now, from, spender);
        &&& post.stored_allowance(from, spender) == (AllowanceValue {
            amount: (eff.amount - amount) as i128,
            expiration_ledger: eff.expiration_ledger,
        })
        &&& (forall|f2: u64, s2: u64|
            !(f2 == from && s2 == spender) ==> post.stored_allowance(f2, s2)
                == pre.stored_allowance(f2, s2))
    }

    /// How `transfer_from` relates the state before to the state after.
    pub open spec fn transfer_from_post(
        pre: Token,
        post: Token,
        auth: AuthContext,
        now: u32,
        spender: u64,
        from: u64,
        to: u64,
        amount: i128,
        r: Result<(), TokenError>,
    ) -> bool {
        &&& post.wf()
        &&& r == Self::transfer_from_result(pre, auth, now, spender, from, amount)
        &&& (r is Ok ==> Self::balances_moved(pre, post, from, to, amount))
        &&& (r is Ok ==> Self::allowance_spent(pre, post, now, from, spender, amount))
        &&& (r is Ok ==> post.events@ == pre.events@.push(
            TokenEvent::Transfer { from, to, amount },
        ))
        &&& (r is Ok ==> post.same_admin(pre) && post.same_frozen(pre) && post.same_metadata(pre))
        &&& (r is Err ==> post.same_state(pre))
    }

    /// How `burn` relates the state before to the state after. Burning moves
    /// tokens out of `from`, so it passes every gate a `transfer` passes.
    pub open spec fn burn_post(
        pre: Token,
        post: Token,
        auth: AuthContext,
        from: u64,
        amount: i128,
        r: Result<(), TokenError>,
    ) -> bool {
        &&& post.wf()
        &&& r == Self::transfer_result(pre, auth, from, amount)
        &&& (r is Ok ==> post.balance_of(from) == pre.balance_of(from) - amount)
        &&& (r is Ok ==> (forall|a: u64| a != from ==> post.balance_of(a) == pre.balance_of(a)))
        &&& (r is Ok ==> post.events@ == pre.events@.push(TokenEvent::Burn { from, amount }))
        &&& (r is Ok ==> post.same_admin(pre) && post.same_allowances(pre) && post.same_frozen(pre)
            && post.same_metadata(pre))
        &&& (r is Err ==> post.same_state(pre))
    }

    /// How `burn_from` relates the state before to the state after: a
    /// `transfer_from` whose tokens leave the ledger instead of landing.
    pub open spec fn burn_from_post(
        pre: Token,
        post: Token,
        auth: AuthContext,
        now: u32,
        spender: u64,
        from: u64,
        amount: i128,
        r: Result<(), TokenError>,
    ) -> bool {
        &&& post.wf()
        &&& r == Self::transfer_from_result(pre, auth, now, spender, from, amount)
        &&& (r is Ok ==> post.balance_of(from) == pre.balance_of(from) - amount)
        &&& (r is Ok ==> (forall|a: u64| a != from ==> post.balance_of(a) == pre.balance_of(a)))
        &&& (r is Ok ==> Self::allowance_spent(pre, post, now, from, spender, amount))
        &&& (r is Ok ==> post.events@ == pre.events@.push(TokenEvent::Burn { from, amount }))
        &&& (r is Ok ==> post.same_admin(pre) && post.same_frozen(pre) && post.same_metadata(pre))
        &&& (r is Err ==> post.same_state(pre))
    }

    /// The amount `spender` may currently draw from `from`: the stored
    /// amount, or 0 once the record's expiration lies before `now`.
    pub fn allowance(&self, now: u32, from: u64, spender: u64) -> (r: i128)
        ensures
            r == self.effective_allowance(now, from, spender).amount,
    {
        read_allowance(self, now, from, spender).amount
    }

    /// Grants `spender` the right to draw up to `amount` from `from` until
    /// `expiration_ledger`, gated on `from` itself. Amount 0 revokes and may
    /// carry any expiration.
    pub fn approve(
        &mut self,
        auth: AuthContext,
        now: u32,
        from: u64,
        spender: u64,
        amount: i128,
        expiration_ledger: u32,
    ) -> (r: Result<(), TokenError>)
        requires
            old(self).wf(),
        ensures
            Token::approve_post(
                *old(self),
                *final(self),
                auth,
                now,
                from,
                spender,
                amount,
                expiration_ledger,
                r,
            ),
    {
        if auth.id != from {
            return Err(TokenError::Unauthorized);
        }
        match check_nonnegative_amount(amount) {
            Ok(()) => (),
            Err(e) => { return Err(e) },
        }
        match write_allowance(self, now, from, spender, amount, expiration_ledger) {
            Ok(()) => (),
            Err(e) => { return Err(e) },
        }
        self.events.push(TokenEvent::Approve { from, spender, amount, expiration_ledger });
        Ok(())
    }

    /// The balance of `id`, 0 where no entry exists.
    pub fn balance(&self, id: u64) -> (r: i128)
        ensures
            r == self.balance_of(id),
    {
        read_balance(self, id)
    }

    /// Moves `amount` from `from` to `to`, gated on `from` itself and on its
    /// freeze flag.
    pub fn transfer(&mut self, auth: AuthContext, from: u64, to: u64, amount: i128) -> (r: Result<
        (),
        TokenError,
    >)
        requires
            old(self).wf(),
            Token::transfer_result(*old(self), auth, from, amount) is Ok && from != to ==> old(
                self,
            ).balance_of(to) + amount <= i128::MAX,
        ensures
            Token::transfer_post(*old(self), *final(self), auth, from, to, amount, r),
    {
        if auth.id != from {
            return Err(TokenError::Unauthorized);
        }
        match check_nonnegative_amount(amount) {
            Ok(()) => (),
            Err(e) => { return Err(e) },
        }
        if is_account_frozen(self, from) {
            return Err(TokenError::AccountFrozen);
        }
        match spend_balance(self, from, amount) {
            Ok(()) => (),
            Err(e) => { return Err(e) },
        }
        receive_balance(self, to, amount);
        self.events.push(TokenEvent::Transfer { from, to, amount });
        Ok(())
    }

    /// Moves `amount` from `from` to `to` on the strength of an allowance,
    /// gated on `spender` and on the freeze flag of `from`. The allowance and
    /// the balance are both checked before either is touched: a failure
    /// leaves no partial effect.
    pub fn transfer_from(
        &mut self,
        auth: AuthContext,
        now: u32,
        spender: u64,
        from: u64,
        to: u64,
        amount: i128,
    ) -> (r: Result<(), TokenError>)
        requires
            old(self).wf(),
            Token::transfer_from_result(*old(self), auth, now, spender, from, amount) is Ok && from
                != to ==> old(self).balance_of(to) + amount <= i128::MAX,
        ensures
            Token::transfer_from_post(
                *old(self),
                *final(self),
                auth,
                now,
                spender,
                from,
                to,
                amount,
                r,
            ),
    {
        if auth.id != spender {
            return Err(TokenError::Unauthorized);
        }
        match check_nonnegative_amount(amount) {
            Ok(()) => (),
            Err(e) => { return Err(e) },
        }
        if is_account_frozen(self, from) {
            return Err(TokenError::AccountFrozen);
        }
        let effective = read_allowance(self, now, from, spender);
        if effective.amount < amount {
            return Err(TokenError::InsufficientAllowance);
        }
        let funds = read_balance(self, from);
        if funds < amount {
            return Err(TokenError::InsufficientFunds);
        }
        let spent = spend_allowance(self, now, from, spender, amount);
        proof {
            assert(spent is Ok);
        }
        let ghost mid_allowance = *self;
        let debited = spend_balance(self, from, amount);
        proof {
            assert(debited is Ok);
        }
        let ghost mid_debit = *self;
        receive_balance(self, to, amount);
        self.events.push(TokenEvent::Transfer { from, to, amount });
        proof {
            assert forall|a: u64| a != from && a != to implies self.balance_of(a) == old(
                self,
            ).balance_of(a) by {
                assert(self.balance_of(a) == mid_debit.balance_of(a));
                assert(mid_debit.balance_of(a) == mid_allowance.balance_of(a));
            }
        }
        Ok(())
    }

    /// Destroys `amount` out of `from`, gated on `from` itself and on its
    /// freeze flag.
    pub fn burn(&mut self, auth: AuthContext, from: u64, amount: i128) -> (r: Result<
        (),
        TokenError,
    >)
        requires
            old(self).wf(),
        ensures
            Token::burn_post(*old(self), *final(self), auth, from, amount, r),
    {
        if auth.id != from {
            return Err(TokenError::Unauthorized);
        }
        match check_nonnegative_amount(amount) {
            Ok(()) => (),
            Err(e) => { return Err(e) },
        }
        if is_account_frozen(self, from) {
            return Err(TokenError::AccountFrozen);
        }
        match spend_balance(self, from, amount) {
            Ok(()) => (),
            Err(e) => { return Err(e) },
        }
        self.events.push(TokenEvent::Burn { from, amount });
        Ok(())
    }

    /// Destroys `amount` out of `from` on the strength of an allowance,
    /// gated on `spender` and on the freeze flag of `from`. As with
    /// `transfer_from`, both checks run before either ledger is touched.
    pub fn burn_from(
        &mut self,
        auth: AuthContext,
        now: u32,
        spender: u64,
        from: u64,
        amount: i128,
    ) -> (r: Result<(), TokenError>)
        requires
            old(self).wf(),
        ensures
            Token::burn_from_post(*old(self), *final(self), auth, now, spender, from, amount, r),
    {
        if auth.id != spender {
            return Err(TokenError::Unauthorized);
        }
        match check_nonnegative_amount(amount) {
            Ok(()) => (),
            Err(e) => { return Err(e) },
        }
        if is_account_frozen(self, from) {
            return Err(TokenError::AccountFrozen);
        }
        let effective = read_allowance(self, now, from, spender);
        if effective.amount < amount {
            return Err(TokenError::InsufficientAllowance);
        }
        let funds = read_balance(self, from);
        if funds < amount {
            return Err(TokenError::InsufficientFunds);
        }
        let spent = spend_allowance(self, now, from, spender, amount);
        proof {
            assert(spent is Ok);
        }
        let ghost mid_allowance = *self;
        let debited = spend_balance(self, from, amount);
        proof {
            assert(debited is Ok);
        }
        self.events.push(TokenEvent::Burn { from, amount });
        proof {
            assert forall|a: u64| a != from implies self.balance_of(a) == old(self).balance_of(
                a,
            ) by {
                assert(self.balance_of(a) == mid_allowance.balance_of(a));
            }
        }
        Ok(())
    }

    /// The stored decimal count.
    pub fn decimals(&self) -> (r: u32)
        requires
            self.metadata is Some,
        ensures
            r == self.metadata.unwrap().decimal,
    {
        read_decimal(self)
    }

    /// A copy of the stored name.
    pub fn name(&self) -> (r: String)
        requires
            self.metadata is Some,
        ensures
            r@ == self.metadata.unwrap().name@,
    {
        read_name(self)
    }

    /// A copy of the stored symbol.
    pub fn symbol(&self) -> (r: String)
        requires
            self.metadata is Some,
        ensures
            r@ == self.metadata.unwrap().symbol@,
    {
        read_symbol(self)
    }
}

/// The argument check every amount-taking operation runs first: amounts below
/// zero are refused before anything else is looked at.
pub fn check_nonnegative_amount(amount: i128) -> (r: Result<(), TokenError>)
    ensures
        r == (if amount < 0 {
            Err::<(), TokenError>(TokenError::NegativeAmount)
        } else {
            Ok::<(), TokenError>(())
        }),
{
    if amount < 0 {
        Err(TokenError::NegativeAmount)
    } else {
        Ok(())
    }
}

/// Whether `account` is currently frozen. Absence of the flag means not
/// frozen; the check reads nothing else.
pub fn is_account_frozen(t: &Token, account: u64) -> (r: bool)
    ensures
        r == t.frozen_flag(account),
{
    t.frozen.contains(&account)
}

} // verus!
