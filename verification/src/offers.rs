//! The offer records: one persistent state object per trade.
//!
//! Three variants, as the protocol has three flows:
//! * [`Offer`] — an intra-chain trade, created together with the maker's
//!   deposit and settled in one step by a taker.
//! * [`InterchainOffer`] — a foreign-origin trade: the offered leg is
//!   escrowed on the foreign chain, and the record is created here by the
//!   relayer as a promise, bound later by the local buyer's deposit.
//! * [`InterchainOriginSolOffer`] — a local-origin trade: the offered leg is
//!   deposited here at creation and later paid out to a foreign-side buyer's
//!   local payout address.
//!
//! The two cross-chain records carry their buyer side in an explicit
//! [`Phase`], so "unset", "bound" and "settled" are single tags checked
//! atomically by each entry point rather than conventions over optional
//! fields.

use vstd::prelude::*;
use crate::assets::AssetRef;
use crate::ids::{AccountId, ForeignAddr};

verus! {

/// How far a cross-chain record has progressed.  The buyer side is unset at
/// creation, populated exactly once by the binding step, and frozen when the
/// trade finalizes.
#[derive(Clone, Copy, PartialEq, Eq, Structural, Debug)]
pub enum Phase {
    /// Created; no counterparty bound yet.
    Created,
    /// A counterparty is bound: their local identity and foreign identity.
    Bound { buyer_local: AccountId, buyer_foreign: ForeignAddr },
    /// The vault was drained to the recipient; the record is terminal.
    Finalized { buyer_local: AccountId, buyer_foreign: ForeignAddr },
}

/// An intra-chain offer, keyed by `(maker, trade_id)`.
///
/// The offered amount is in the vault from the moment the record exists, and
/// `completed` flips false to true exactly once, when a taker settles.
#[derive(Clone, Copy, PartialEq, Eq, Structural, Debug)]
pub struct Offer {
    /// Caller-chosen trade identifier, scoped per maker.
    pub trade_id: u64,
    /// The party who deposited and defined the terms; immutable.
    pub maker: AccountId,
    /// Asset of the deposited leg.
    pub offered_asset: AssetRef,
    /// Asset the maker wants in return.
    pub wanted_asset: AssetRef,
    /// Amount deposited into the vault at creation; positive.
    pub offered_amount: u64,
    /// Amount the taker must pay the maker.
    pub wanted_amount: u64,
    /// Whether the trade has been settled.
    pub completed: bool,
}

/// A foreign-origin offer, keyed by `trade_id`.
///
/// The offered leg was escrowed on the foreign chain before this record
/// existed; the relayer materializes the record with the buyer side unset.
/// The local buyer's deposit binds the buyer side, and finalize drains the
/// deposited wanted leg to the seller's local payout address.
#[derive(Clone, Copy, PartialEq, Eq, Structural, Debug)]
pub struct InterchainOffer {
    /// Trade identifier as assigned on the foreign chain.
    pub trade_id: u64,
    /// Which foreign chain the offered leg lives on.
    pub chain_id: u64,
    /// The seller's identity on the foreign chain.
    pub seller_foreign: ForeignAddr,
    /// Where the seller wants the local payout.
    pub seller_payout: AccountId,
    /// Amount escrowed on the foreign chain; informational here.
    pub offered_amount: u64,
    /// Asset of the local deposit leg.
    pub wanted_asset: AssetRef,
    /// Amount the local buyer must deposit, and finalize pays out.
    pub wanted_amount: u64,
    /// Fees accumulated by the relayer; starts at zero.
    pub fee_collected: u64,
    /// Buyer side and completion, as one tag.
    pub phase: Phase,
}

/// A local-origin offer, keyed by `trade_id`.
///
/// The mirror case: a local seller deposits the offered leg here at
/// creation, intending to be paid on the foreign chain.  Once the foreign
/// leg is confirmed off-chain, the external buyer's payout address is bound,
/// and finalize drains the deposit to it.
#[derive(Clone, Copy, PartialEq, Eq, Structural, Debug)]
pub struct InterchainOriginSolOffer {
    /// Caller-chosen trade identifier shared with the foreign chain.
    pub trade_id: u64,
    /// Which foreign chain the wanted leg settles on.
    pub chain_id: u64,
    /// The local seller who deposited; immutable.
    pub seller: AccountId,
    /// The seller's identity on the foreign chain.
    pub seller_foreign: ForeignAddr,
    /// Asset of the deposited leg.
    pub offered_asset: AssetRef,
    /// Amount deposited into the vault at creation; positive.
    pub offered_amount: u64,
    /// Amount owed to the seller on the foreign chain; informational here.
    pub wanted_amount: u64,
    /// Fees accumulated by the relayer; starts at zero.
    pub fee_collected: u64,
    /// Buyer side and completion, as one tag.
    pub phase: Phase,
}

} // verus!
