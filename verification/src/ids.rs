//! Opaque identities of trade parties.
//!
//! The engine never inspects an identity beyond comparing it for equality and
//! using it to address balances and records, so identities are carried as
//! opaque tokens around plain integers: a local account identity, and a
//! foreign-chain identity for the cross-chain flows.

use vstd::prelude::*;

verus! {

/// Identity of an account on the local chain: a party that can sign, hold
/// balances and receive payouts.
#[derive(Clone, Copy, PartialEq, Eq, Structural, Debug)]
pub struct AccountId(pub u64);

/// Identity of a party on the foreign chain.  The engine only records and
/// compares it; all foreign-chain accounting happens off-engine.
#[derive(Clone, Copy, PartialEq, Eq, Structural, Debug)]
pub struct ForeignAddr(pub u64);

} // verus!
