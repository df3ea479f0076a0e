//! Token metadata: name, symbol and decimal count.

use vstd::prelude::*;

use crate::contract::Token;
use crate::storage_types::TokenMetadata;

verus! {

/// Stores `metadata` unconditionally; nothing else changes.
pub fn write_metadata(t: &mut Token, metadata: TokenMetadata)
    requires
        old(t).wf(),
    ensures
        final(t).wf(),
        final(t).metadata == Some(metadata),
        final(t).same_admin(*old(t)),
        final(t).same_balances(*old(t)),
        final(t).same_allowances(*old(t)),
        final(t).same_frozen(*old(t)),
        final(t).same_events(*old(t)),
{
    t.metadata = Some(metadata);
}

/// The stored decimal count.
pub fn read_decimal(t: &Token) -> (r: u32)
    requires
        t.metadata is Some,
    ensures
        r == t.metadata.unwrap().decimal,
{
    match &t.metadata {
        Some(m) => m.decimal,
        None => 0,
    }
}

/// A copy of the stored name.
pub fn read_name(t: &Token) -> (r: String)
    requires
        t.metadata is Some,
    ensures
        r@ == t.metadata.unwrap().name@,
{
    match &t.metadata {
        Some(m) => m.name.clone(),
        None => String::new(),
    }
}

/// A copy of the stored symbol.
pub fn read_symbol(t: &Token) -> (r: String)
    requires
        t.metadata is Some,
    ensures
        r@ == t.metadata.unwrap().symbol@,
{
    match &t.metadata {
        Some(m) => m.symbol.clone(),
        None => String::new(),
    }
}

} // verus!
