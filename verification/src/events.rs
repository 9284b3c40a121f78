//! Events: the append-only notification channel.
//!
//! Every successful state transition returns exactly one event carrying the
//! trade identifier, the amounts, the party identities and the resulting
//! completion flag.  They are the only externally observable side channel
//! besides the records themselves; the off-chain relayer consumes them to
//! decide when to invoke the next-phase entry point on either chain.

use vstd::prelude::*;
use crate::assets::AssetRef;
use crate::ids::{AccountId, ForeignAddr};

verus! {

/// An intra-chain offer was created and its deposit escrowed.
#[derive(Clone, Copy, PartialEq, Eq, Structural, Debug)]
pub struct CreateTradeEvent {
    pub trade_id: u64,
    pub maker: AccountId,
    pub offered_asset: AssetRef,
    pub wanted_asset: AssetRef,
    pub offered_amount: u64,
    pub wanted_amount: u64,
    pub completed: bool,
}

/// An intra-chain offer was settled: both transfers happened.
#[derive(Clone, Copy, PartialEq, Eq, Structural, Debug)]
pub struct SwapCompletedEvent {
    pub trade_id: u64,
    pub maker: AccountId,
    pub taker: AccountId,
    pub offered_transferred: u64,
    pub wanted_transferred: u64,
    pub completed: bool,
}

/// A foreign-origin offer was relayed here after its foreign deposit.
#[derive(Clone, Copy, PartialEq, Eq, Structural, Debug)]
pub struct RelayEvmTradeEvent {
    pub trade_id: u64,
    pub chain_id: u64,
    pub seller_foreign: ForeignAddr,
    pub seller_payout: AccountId,
    pub offered_amount: u64,
    pub wanted_asset: AssetRef,
    pub wanted_amount: u64,
    pub fee_collected: u64,
    pub completed: bool,
}

/// The local buyer deposited the wanted leg of a foreign-origin offer and
/// was bound to it.
#[derive(Clone, Copy, PartialEq, Eq, Structural, Debug)]
pub struct InterchainCreateTradeEvent {
    pub trade_id: u64,
    pub buyer_local: AccountId,
    pub buyer_foreign: ForeignAddr,
    pub wanted_asset: AssetRef,
    pub wanted_amount: u64,
    pub offered_amount: u64,
    pub completed: bool,
}

/// A local-origin offer was created and its deposit escrowed.
#[derive(Clone, Copy, PartialEq, Eq, Structural, Debug)]
pub struct InterchainOriginSolCreateTradeEvent {
    pub trade_id: u64,
    pub chain_id: u64,
    pub seller: AccountId,
    pub seller_foreign: ForeignAddr,
    pub offered_asset: AssetRef,
    pub offered_amount: u64,
    pub wanted_amount: u64,
    pub completed: bool,
}

/// The foreign-side buyer of a local-origin offer was bound: their local
/// payout address and foreign identity were written onto the record.  No
/// funds move in this step.
#[derive(Clone, Copy, PartialEq, Eq, Structural, Debug)]
pub struct ForeignBuyerBoundEvent {
    pub trade_id: u64,
    pub buyer_payout: AccountId,
    pub buyer_foreign: ForeignAddr,
    pub offered_asset: AssetRef,
    pub offered_amount: u64,
    pub wanted_amount: u64,
    pub completed: bool,
}

/// A cross-chain offer finalized: the vault was drained to the recipient.
#[derive(Clone, Copy, PartialEq, Eq, Structural, Debug)]
pub struct InterchainSwapCompletedEvent {
    pub trade_id: u64,
    pub buyer: AccountId,
    pub seller: AccountId,
    pub offered_transferred: u64,
    pub wanted_transferred: u64,
    pub completed: bool,
}

} // verus!
