//! Asset references and balance holders.

use vstd::prelude::*;
use crate::ids::AccountId;

verus! {

/// Identifies one asset kind: either the native currency of the local chain
/// or a specific fungible token, named by its token-type identity.
/// An asset reference is immutable once bound to an offer.
#[derive(Clone, Copy, PartialEq, Eq, Structural, Debug)]
pub enum AssetRef {
    Native,
    Token(u64),
}

/// One side of a ledger balance: either an ordinary party, or the custodial
/// vault.  There is one vault balance per asset kind, all under the single
/// protocol-controlled authority, so the vault needs no identity of its own.
#[derive(Clone, Copy, PartialEq, Eq, Structural, Debug)]
pub enum Holder {
    Vault,
    Party(AccountId),
}

} // verus!
