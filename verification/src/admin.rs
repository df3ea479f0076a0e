//! Access control: the singleton administrator slot.

use vstd::prelude::*;

use crate::contract::Token;
use crate::error::TokenError;

verus! {

/// What reading the administrator slot yields: the stored identity, or
/// `NotInitialized` while the slot is still empty.
pub open spec fn read_administrator_result(t: Token) -> Result<u64, TokenError> {
    match t.admin {
        Some(id) => Ok(id),
        None => Err(TokenError::NotInitialized),
    }
}

/// Whether the administrator slot holds an identity.
pub fn has_administrator(t: &Token) -> (r: bool)
    ensures
        r == t.initialized(),
{
    t.admin.is_some()
}

/// The administrator, or `NotInitialized` while none was ever written.
pub fn read_administrator(t: &Token) -> (r: Result<u64, TokenError>)
    ensures
        r == read_administrator_result(*t),
{
    match t.admin {
        Some(id) => Ok(id),
        None => Err(TokenError::NotInitialized),
    }
}

/// Overwrites the administrator slot unconditionally; nothing else changes.
pub fn write_administrator(t: &mut Token, id: u64)
    requires
        old(t).wf(),
    ensures
        final(t).wf(),
        final(t).admin == Some(id),
        final(t).same_balances(*old(t)),
        final(t).same_allowances(*old(t)),
        final(t).same_frozen(*old(t)),
        final(t).same_metadata(*old(t)),
        final(t).same_events(*old(t)),
{
    t.admin = Some(id);
}

} // verus!
