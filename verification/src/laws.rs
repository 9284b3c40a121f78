//! The laws of the protocol, proved from the entry points' outcome
//! functions.
//!
//! Each proof function here states one guarantee of the settlement engine
//! over every state and input it speaks of: creation deposits exactly what
//! the record says, settlement and binding happen at most once, the
//! self-trade check moves no funds, and the two cross-chain round trips
//! move exactly the recorded amounts.  Because every entry point ensures
//! `final(self)@` equals its outcome function applied to `old(self)@`,
//! these laws carry over to any sequence of calls on a real engine.

use vstd::prelude::*;
use crate::assets::{AssetRef, Holder};
use crate::engine::{
    bind_foreign_buyer_outcome, bind_foreign_leg_outcome, create_intra_outcome,
    create_local_outcome, finalize_foreign_outcome, finalize_local_outcome, relay_foreign_outcome,
    settle_intra_outcome, EngineView,
};
use crate::errors::P2PError;
use crate::events::{InterchainCreateTradeEvent, InterchainSwapCompletedEvent, SwapCompletedEvent};
use crate::ids::{AccountId, ForeignAddr};
use crate::ledger::can_move;

verus! {

/// Creating an intra-chain offer with a positive offered amount, a fresh
/// key and a coverable deposit succeeds, raises the vault's balance in the
/// offered asset by exactly the offered amount, and leaves a record that is
/// not completed and carries the stated terms.
pub proof fn lemma_create_intra_deposits(
    pre: EngineView,
    maker: AccountId,
    trade_id: u64,
    offered_asset: AssetRef,
    wanted_asset: AssetRef,
    offered_amount: u64,
    wanted_amount: u64,
)
    requires
        offered_amount > 0,
        !pre.intra.contains_key((maker, trade_id)),
        can_move(pre.balances, Holder::Party(maker), Holder::Vault, offered_asset, offered_amount),
    ensures
        ({
            let (post, r) = create_intra_outcome(
                pre,
                maker,
                trade_id,
                offered_asset,
                wanted_asset,
                offered_amount,
                wanted_amount,
            );
            r is Ok && post.balances[(Holder::Vault, offered_asset)] == pre.balances[(
                Holder::Vault,
                offered_asset,
            )] + offered_amount && post.intra.contains_key((maker, trade_id)) && !post.intra[(
                maker,
                trade_id,
            )].completed && post.intra[(maker, trade_id)].offered_amount == offered_amount
                && post.intra[(maker, trade_id)].maker == maker
        }),
{
}

/// An intra-chain offer settles at most once: after a successful
/// settlement, any further attempt — by any taker — is rejected with
/// `AlreadySettled` and changes nothing, balances included.
pub proof fn lemma_settle_at_most_once(
    pre: EngineView,
    maker: AccountId,
    trade_id: u64,
    taker1: AccountId,
    taker2: AccountId,
)
    requires
        settle_intra_outcome(pre, maker, trade_id, taker1).1 is Ok,
    ensures
        ({
            let post = settle_intra_outcome(pre, maker, trade_id, taker1).0;
            settle_intra_outcome(post, maker, trade_id, taker2) == (
                post,
                Err::<SwapCompletedEvent, P2PError>(P2PError::AlreadySettled),
            )
        }),
{
}

/// A maker cannot take their own open offer: settlement with the taker
/// equal to the recorded maker is rejected with `SelfTradeForbidden` and
/// moves no funds.
pub proof fn lemma_settle_self_trade_rejected(pre: EngineView, maker: AccountId, trade_id: u64)
    requires
        pre.intra.contains_key((maker, trade_id)),
        !pre.intra[(maker, trade_id)].completed,
    ensures
        settle_intra_outcome(pre, maker, trade_id, pre.intra[(maker, trade_id)].maker) == (
            pre,
            Err::<SwapCompletedEvent, P2PError>(P2PError::SelfTradeForbidden),
        ),
{
}

/// The foreign-origin round trip: relay, then the buyer's deposit, then
/// finalize, all succeed from a fresh trade identifier, and in the end the
/// vault is debited by exactly the wanted amount, the seller's payout
/// address is credited by exactly the wanted amount, the buyer has paid
/// exactly the wanted amount, and the record is terminal.
pub proof fn lemma_foreign_round_trip(
    pre: EngineView,
    trade_id: u64,
    chain_id: u64,
    seller_foreign: ForeignAddr,
    seller_payout: AccountId,
    offered_amount: u64,
    wanted_asset: AssetRef,
    wanted_amount: u64,
    buyer_local: AccountId,
    buyer_foreign: ForeignAddr,
)
    requires
        !pre.foreign.contains_key(trade_id),
        offered_amount > 0,
        can_move(
            pre.balances,
            Holder::Party(buyer_local),
            Holder::Vault,
            wanted_asset,
            wanted_amount,
        ),
        seller_payout != buyer_local,
        pre.balances[(Holder::Party(seller_payout), wanted_asset)] + wanted_amount <= u64::MAX,
    ensures
        ({
            let (s1, r1) = relay_foreign_outcome(
                pre,
                trade_id,
                chain_id,
                seller_foreign,
                seller_payout,
                offered_amount,
                wanted_asset,
                wanted_amount,
            );
            let (s2, r2) = bind_foreign_leg_outcome(
                s1,
                trade_id,
                buyer_local,
                buyer_foreign,
                wanted_asset,
                wanted_amount,
            );
            let (s3, r3) = finalize_foreign_outcome(s2, trade_id);
            r1 is Ok && r2 is Ok && r3 is Ok && s1.balances == pre.balances && s3.balances[(
                Holder::Vault,
                wanted_asset,
            )] == s2.balances[(Holder::Vault, wanted_asset)] - wanted_amount && s3.balances[(
                Holder::Party(seller_payout),
                wanted_asset,
            )] == pre.balances[(Holder::Party(seller_payout), wanted_asset)] + wanted_amount
                && s3.balances[(Holder::Party(buyer_local), wanted_asset)] == pre.balances[(
                Holder::Party(buyer_local),
                wanted_asset,
            )] - wanted_amount && s3.foreign[trade_id].phase is Finalized
        }),
{
}

/// Finalizing a foreign-origin offer before its buyer leg is bound is
/// rejected with `UnboundOffer` and changes nothing.
pub proof fn lemma_finalize_foreign_before_bind_fails(pre: EngineView, trade_id: u64)
    requires
        pre.foreign.contains_key(trade_id),
        pre.foreign[trade_id].phase is Created,
    ensures
        finalize_foreign_outcome(pre, trade_id) == (
            pre,
            Err::<InterchainSwapCompletedEvent, P2PError>(P2PError::UnboundOffer),
        ),
{
}

/// Binding or finalizing a foreign-origin trade that was never relayed is
/// rejected with `UnknownOffer` and changes nothing.
pub proof fn lemma_foreign_requires_relay(
    pre: EngineView,
    trade_id: u64,
    buyer_local: AccountId,
    buyer_foreign: ForeignAddr,
    deposit_asset: AssetRef,
    deposit_amount: u64,
)
    requires
        !pre.foreign.contains_key(trade_id),
    ensures
        bind_foreign_leg_outcome(
            pre,
            trade_id,
            buyer_local,
            buyer_foreign,
            deposit_asset,
            deposit_amount,
        ).0 == pre,
        bind_foreign_leg_outcome(
            pre,
            trade_id,
            buyer_local,
            buyer_foreign,
            deposit_asset,
            deposit_amount,
        ).1 == Err::<InterchainCreateTradeEvent, P2PError>(P2PError::UnknownOffer),
        finalize_foreign_outcome(pre, trade_id) == (
            pre,
            Err::<InterchainSwapCompletedEvent, P2PError>(P2PError::UnknownOffer),
        ),
{
}

/// The buyer leg of a foreign-origin offer binds at most once: after a
/// successful deposit-and-bind, a second attempt — whoever makes it, with
/// whatever deposit — is rejected with `AlreadyBound` and deposits nothing.
pub proof fn lemma_bind_foreign_leg_at_most_once(
    pre: EngineView,
    trade_id: u64,
    buyer_local1: AccountId,
    buyer_foreign1: ForeignAddr,
    deposit_asset1: AssetRef,
    deposit_amount1: u64,
    buyer_local2: AccountId,
    buyer_foreign2: ForeignAddr,
    deposit_asset2: AssetRef,
    deposit_amount2: u64,
)
    requires
        bind_foreign_leg_outcome(
            pre,
            trade_id,
            buyer_local1,
            buyer_foreign1,
            deposit_asset1,
            deposit_amount1,
        ).1 is Ok,
    ensures
        ({
            let post = bind_foreign_leg_outcome(
                pre,
                trade_id,
                buyer_local1,
                buyer_foreign1,
                deposit_asset1,
                deposit_amount1,
            ).0;
            bind_foreign_leg_outcome(
                post,
                trade_id,
                buyer_local2,
                buyer_foreign2,
                deposit_asset2,
                deposit_amount2,
            ) == (post, Err::<InterchainCreateTradeEvent, P2PError>(P2PError::AlreadyBound))
        }),
{
}

/// A foreign-origin offer finalizes at most once: after a successful
/// finalize, a second attempt is rejected with `AlreadySettled` and leaves
/// all balances unchanged.
pub proof fn lemma_finalize_foreign_at_most_once(pre: EngineView, trade_id: u64)
    requires
        finalize_foreign_outcome(pre, trade_id).1 is Ok,
    ensures
        ({
            let post = finalize_foreign_outcome(pre, trade_id).0;
            finalize_foreign_outcome(post, trade_id) == (
                post,
                Err::<InterchainSwapCompletedEvent, P2PError>(P2PError::AlreadySettled),
            )
        }),
{
}

/// The local-origin round trip: creation deposits exactly the offered
/// amount, binding the foreign buyer moves no funds, and finalize credits
/// the bound buyer exactly the offered amount and makes the record
/// terminal.
pub proof fn lemma_local_round_trip(
    pre: EngineView,
    trade_id: u64,
    chain_id: u64,
    seller: AccountId,
    seller_foreign: ForeignAddr,
    offered_asset: AssetRef,
    offered_amount: u64,
    wanted_amount: u64,
    buyer_payout: AccountId,
    buyer_foreign: ForeignAddr,
)
    requires
        !pre.local.contains_key(trade_id),
        offered_amount > 0,
        can_move(pre.balances, Holder::Party(seller), Holder::Vault, offered_asset, offered_amount),
        buyer_payout != seller,
        pre.balances[(Holder::Party(buyer_payout), offered_asset)] + offered_amount <= u64::MAX,
    ensures
        ({
            let (s1, r1) = create_local_outcome(
                pre,
                trade_id,
                chain_id,
                seller,
                seller_foreign,
                offered_asset,
                offered_amount,
                wanted_amount,
            );
            let (s2, r2) = bind_foreign_buyer_outcome(s1, trade_id, buyer_payout, buyer_foreign);
            let (s3, r3) = finalize_local_outcome(s2, trade_id);
            r1 is Ok && r2 is Ok && r3 is Ok && s1.balances[(Holder::Vault, offered_asset)]
                == pre.balances[(Holder::Vault, offered_asset)] + offered_amount && s2.balances
                == s1.balances && s3.balances[(Holder::Party(buyer_payout), offered_asset)]
                == pre.balances[(Holder::Party(buyer_payout), offered_asset)] + offered_amount
                && s3.balances[(Holder::Vault, offered_asset)] == s2.balances[(
                Holder::Vault,
                offered_asset,
            )] - offered_amount && s3.local[trade_id].phase is Finalized
        }),
{
}

/// A local-origin offer finalizes at most once: after a successful
/// finalize, a second attempt is rejected with `AlreadySettled` and leaves
/// all balances unchanged.
pub proof fn lemma_finalize_local_at_most_once(pre: EngineView, trade_id: u64)
    requires
        finalize_local_outcome(pre, trade_id).1 is Ok,
    ensures
        ({
            let post = finalize_local_outcome(pre, trade_id).0;
            finalize_local_outcome(post, trade_id) == (
                post,
                Err::<InterchainSwapCompletedEvent, P2PError>(P2PError::AlreadySettled),
            )
        }),
{
}

} // verus!
