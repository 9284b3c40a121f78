//! The settlement engine: every entry point of the protocol.
//!
//! The engine owns the ledger and the three record tables, and each entry
//! point is one atomic transition over them: all checks, transfers and
//! record writes commit together, or the transition returns a typed
//! rejection and the state is untouched.
//!
//! Each entry point's behaviour is stated by a spec function mapping the
//! pre-state and the inputs to the exact post-state and result, and the
//! executable method ensures it implements that function.  The laws of the
//! protocol — settlement happens at most once, binding happens at most
//! once, a round trip moves exactly the recorded amounts — are proved from
//! these outcome functions in [`crate::laws`].

use vstd::prelude::*;
use crate::assets::{AssetRef, Holder};
use crate::errors::P2PError;
use crate::events::{
    CreateTradeEvent, ForeignBuyerBoundEvent, InterchainCreateTradeEvent,
    InterchainOriginSolCreateTradeEvent, InterchainSwapCompletedEvent, RelayEvmTradeEvent,
    SwapCompletedEvent,
};
use crate::ids::{AccountId, ForeignAddr};
use crate::ledger::{after_move, can_move, lemma_move_roundtrip, Ledger, VaultAuth};
use crate::offers::{InterchainOffer, InterchainOriginSolOffer, Offer, Phase};
use crate::tables::{InterchainOfferTable, InterchainOriginSolOfferTable, OfferTable};

verus! {

/// The abstract state of the engine: the balance book and the three record
/// maps.  All contracts and laws are stated over this view.
#[verifier::ext_equal]
pub struct EngineView {
    /// Balance per holder and asset kind; total, zero by default.
    pub balances: Map<(Holder, AssetRef), u64>,
    /// Intra-chain offers, keyed by `(maker, trade_id)`.
    pub intra: Map<(AccountId, u64), Offer>,
    /// Foreign-origin offers, keyed by trade identifier.
    pub foreign: Map<u64, InterchainOffer>,
    /// Local-origin offers, keyed by trade identifier.
    pub local: Map<u64, InterchainOriginSolOffer>,
}

/// The settlement engine.
pub struct Engine {
    ledger: Ledger,
    intra: OfferTable,
    foreign: InterchainOfferTable,
    local: InterchainOriginSolOfferTable,
}

impl View for Engine {
    type V = EngineView;

    closed spec fn view(&self) -> EngineView {
        EngineView {
            balances: self.ledger@,
            intra: self.intra@,
            foreign: self.foreign@,
            local: self.local@,
        }
    }
}

/// Outcome of creating an intra-chain offer: deposit and record creation in
/// one transition.
pub open spec fn create_intra_outcome(
    pre: EngineView,
    maker: AccountId,
    trade_id: u64,
    offered_asset: AssetRef,
    wanted_asset: AssetRef,
    offered_amount: u64,
    wanted_amount: u64,
) -> (EngineView, Result<CreateTradeEvent, P2PError>) {
    if offered_amount == 0 {
        (pre, Err(P2PError::InvalidAmount))
    } else if pre.intra.contains_key((maker, trade_id)) {
        (pre, Err(P2PError::DuplicateOffer))
    } else if !can_move(pre.balances, Holder::Party(maker), Holder::Vault, offered_asset,
    offered_amount) {
        (pre, Err(P2PError::TransferFailure))
    } else {
        let o = Offer {
            trade_id,
            maker,
            offered_asset,
            wanted_asset,
            offered_amount,
            wanted_amount,
            completed: false,
        };
        let ev = CreateTradeEvent {
            trade_id,
            maker,
            offered_asset,
            wanted_asset,
            offered_amount,
            wanted_amount,
            completed: false,
        };
        (
            EngineView {
                balances: after_move(
                    pre.balances,
                    Holder::Party(maker),
                    Holder::Vault,
                    offered_asset,
                    offered_amount,
                ),
                intra: pre.intra.insert((maker, trade_id), o),
                ..pre
            },
            Ok(ev),
        )
    }
}

/// Outcome of settling an intra-chain offer: vault pays the taker the
/// offered leg, the taker pays the maker the wanted leg, and the record
/// completes — or nothing happens at all.
pub open spec fn settle_intra_outcome(
    pre: EngineView,
    maker: AccountId,
    trade_id: u64,
    taker: AccountId,
) -> (EngineView, Result<SwapCompletedEvent, P2PError>) {
    if !pre.intra.contains_key((maker, trade_id)) {
        (pre, Err(P2PError::UnknownOffer))
    } else {
        let o = pre.intra[(maker, trade_id)];
        if o.completed {
            (pre, Err(P2PError::AlreadySettled))
        } else if taker == o.maker {
            (pre, Err(P2PError::SelfTradeForbidden))
        } else if !can_move(pre.balances, Holder::Vault, Holder::Party(taker), o.offered_asset,
        o.offered_amount) {
            (pre, Err(P2PError::TransferFailure))
        } else {
            let paid = after_move(
                pre.balances,
                Holder::Vault,
                Holder::Party(taker),
                o.offered_asset,
                o.offered_amount,
            );
            if !can_move(paid, Holder::Party(taker), Holder::Party(o.maker), o.wanted_asset,
            o.wanted_amount) {
                (pre, Err(P2PError::TransferFailure))
            } else {
                let ev = SwapCompletedEvent {
                    trade_id,
                    maker: o.maker,
                    taker,
                    offered_transferred: o.offered_amount,
                    wanted_transferred: o.wanted_amount,
                    completed: true,
                };
                (
                    EngineView {
                        balances: after_move(
                            paid,
                            Holder::Party(taker),
                            Holder::Party(o.maker),
                            o.wanted_asset,
                            o.wanted_amount,
                        ),
                        intra: pre.intra.insert(
                            (maker, trade_id),
                            Offer { completed: true, ..o },
                        ),
                        ..pre
                    },
                    Ok(ev),
                )
            }
        }
    }
}

/// Outcome of relaying a foreign-origin offer: the relayer materializes a
/// promise record — the offered leg is already escrowed on the foreign
/// chain, so no funds move here and the buyer side starts unset.
pub open spec fn relay_foreign_outcome(
    pre: EngineView,
    trade_id: u64,
    chain_id: u64,
    seller_foreign: ForeignAddr,
    seller_payout: AccountId,
    offered_amount: u64,
    wanted_asset: AssetRef,
    wanted_amount: u64,
) -> (EngineView, Result<RelayEvmTradeEvent, P2PError>) {
    if offered_amount == 0 {
        (pre, Err(P2PError::InvalidAmount))
    } else if pre.foreign.contains_key(trade_id) {
        (pre, Err(P2PError::DuplicateOffer))
    } else {
        let o = InterchainOffer {
            trade_id,
            chain_id,
            seller_foreign,
            seller_payout,
            offered_amount,
            wanted_asset,
            wanted_amount,
            fee_collected: 0,
            phase: Phase::Created,
        };
        let ev = RelayEvmTradeEvent {
            trade_id,
            chain_id,
            seller_foreign,
            seller_payout,
            offered_amount,
            wanted_asset,
            wanted_amount,
            fee_collected: 0,
            completed: false,
        };
        (EngineView { foreign: pre.foreign.insert(trade_id, o), ..pre }, Ok(ev))
    }
}

/// Outcome of the local buyer's deposit on a foreign-origin offer: the
/// deposit of exactly the wanted leg moves into the vault and the buyer's
/// identities are bound onto the existing record, at most once.
pub open spec fn bind_foreign_leg_outcome(
    pre: EngineView,
    trade_id: u64,
    buyer_local: AccountId,
    buyer_foreign: ForeignAddr,
    deposit_asset: AssetRef,
    deposit_amount: u64,
) -> (EngineView, Result<InterchainCreateTradeEvent, P2PError>) {
    if !pre.foreign.contains_key(trade_id) {
        (pre, Err(P2PError::UnknownOffer))
    } else {
        let o = pre.foreign[trade_id];
        if !(o.phase is Created) {
            (pre, Err(P2PError::AlreadyBound))
        } else if deposit_amount != o.wanted_amount {
            (pre, Err(P2PError::InvalidAmount))
        } else if deposit_asset != o.wanted_asset || !can_move(
            pre.balances,
            Holder::Party(buyer_local),
            Holder::Vault,
            o.wanted_asset,
            o.wanted_amount,
        ) {
            (pre, Err(P2PError::TransferFailure))
        } else {
            let bound = InterchainOffer { phase: Phase::Bound { buyer_local, buyer_foreign }, ..o };
            let ev = InterchainCreateTradeEvent {
                trade_id,
                buyer_local,
                buyer_foreign,
                wanted_asset: o.wanted_asset,
                wanted_amount: o.wanted_amount,
                offered_amount: o.offered_amount,
                completed: false,
            };
            (
                EngineView {
                    balances: after_move(
                        pre.balances,
                        Holder::Party(buyer_local),
                        Holder::Vault,
                        o.wanted_asset,
                        o.wanted_amount,
                    ),
                    foreign: pre.foreign.insert(trade_id, bound),
                    ..pre
                },
                Ok(ev),
            )
        }
    }
}

/// Outcome of finalizing a foreign-origin offer: once both legs are
/// present, the vault pays the recorded wanted amount to the seller's local
/// payout address and the record becomes terminal.
pub open spec fn finalize_foreign_outcome(pre: EngineView, trade_id: u64) -> (
    EngineView,
    Result<InterchainSwapCompletedEvent, P2PError>,
) {
    if !pre.foreign.contains_key(trade_id) {
        (pre, Err(P2PError::UnknownOffer))
    } else {
        let o = pre.foreign[trade_id];
        match o.phase {
            Phase::Finalized { .. } => (pre, Err(P2PError::AlreadySettled)),
            Phase::Created => (pre, Err(P2PError::UnboundOffer)),
            Phase::Bound { buyer_local, buyer_foreign } => {
                if o.seller_payout == buyer_local {
                    (pre, Err(P2PError::SelfTradeForbidden))
                } else if !can_move(
                    pre.balances,
                    Holder::Vault,
                    Holder::Party(o.seller_payout),
                    o.wanted_asset,
                    o.wanted_amount,
                ) {
                    (pre, Err(P2PError::TransferFailure))
                } else {
                    let done = InterchainOffer {
                        phase: Phase::Finalized { buyer_local, buyer_foreign },
                        ..o
                    };
                    let ev = InterchainSwapCompletedEvent {
                        trade_id,
                        buyer: buyer_local,
                        seller: o.seller_payout,
                        offered_transferred: o.offered_amount,
                        wanted_transferred: o.wanted_amount,
                        completed: true,
                    };
                    (
                        EngineView {
                            balances: after_move(
                                pre.balances,
                                Holder::Vault,
                                Holder::Party(o.seller_payout),
                                o.wanted_asset,
                                o.wanted_amount,
                            ),
                            foreign: pre.foreign.insert(trade_id, done),
                            ..pre
                        },
                        Ok(ev),
                    )
                }
            },
        }
    }
}

/// Outcome of creating a local-origin offer: the local seller's deposit
/// moves into the vault and the fully-populated record is written, with
/// only the external buyer's side left unset.
pub open spec fn create_local_outcome(
    pre: EngineView,
    trade_id: u64,
    chain_id: u64,
    seller: AccountId,
    seller_foreign: ForeignAddr,
    offered_asset: AssetRef,
    offered_amount: u64,
    wanted_amount: u64,
) -> (EngineView, Result<InterchainOriginSolCreateTradeEvent, P2PError>) {
    if offered_amount == 0 {
        (pre, Err(P2PError::InvalidAmount))
    } else if pre.local.contains_key(trade_id) {
        (pre, Err(P2PError::DuplicateOffer))
    } else if !can_move(pre.balances, Holder::Party(seller), Holder::Vault, offered_asset,
    offered_amount) {
        (pre, Err(P2PError::TransferFailure))
    } else {
        let o = InterchainOriginSolOffer {
            trade_id,
            chain_id,
            seller,
            seller_foreign,
            offered_asset,
            offered_amount,
            wanted_amount,
            fee_collected: 0,
            phase: Phase::Created,
        };
        let ev = InterchainOriginSolCreateTradeEvent {
            trade_id,
            chain_id,
            seller,
            seller_foreign,
            offered_asset,
            offered_amount,
            wanted_amount,
            completed: false,
        };
        (
            EngineView {
                balances: after_move(
                    pre.balances,
                    Holder::Party(seller),
                    Holder::Vault,
                    offered_asset,
                    offered_amount,
                ),
                local: pre.local.insert(trade_id, o),
                ..pre
            },
            Ok(ev),
        )
    }
}

/// Outcome of binding the foreign-side buyer of a local-origin offer: once
/// the foreign leg is confirmed off-chain, the buyer's local payout address
/// and foreign identity are written onto the record.  No funds move.
pub open spec fn bind_foreign_buyer_outcome(
    pre: EngineView,
    trade_id: u64,
    buyer_payout: AccountId,
    buyer_foreign: ForeignAddr,
) -> (EngineView, Result<ForeignBuyerBoundEvent, P2PError>) {
    if !pre.local.contains_key(trade_id) {
        (pre, Err(P2PError::UnknownOffer))
    } else {
        let o = pre.local[trade_id];
        if !(o.phase is Created) {
            (pre, Err(P2PError::AlreadyBound))
        } else {
            let bound = InterchainOriginSolOffer {
                phase: Phase::Bound { buyer_local: buyer_payout, buyer_foreign },
                ..o
            };
            let ev = ForeignBuyerBoundEvent {
                trade_id,
                buyer_payout,
                buyer_foreign,
                offered_asset: o.offered_asset,
                offered_amount: o.offered_amount,
                wanted_amount: o.wanted_amount,
                completed: false,
            };
            (EngineView { local: pre.local.insert(trade_id, bound), ..pre }, Ok(ev))
        }
    }
}

/// Outcome of finalizing a local-origin offer: the vault pays the recorded
/// offered amount to the bound buyer's local payout address and the record
/// becomes terminal.
pub open spec fn finalize_local_outcome(pre: EngineView, trade_id: u64) -> (
    EngineView,
    Result<InterchainSwapCompletedEvent, P2PError>,
) {
    if !pre.local.contains_key(trade_id) {
        (pre, Err(P2PError::UnknownOffer))
    } else {
        let o = pre.local[trade_id];
        match o.phase {
            Phase::Finalized { .. } => (pre, Err(P2PError::AlreadySettled)),
            Phase::Created => (pre, Err(P2PError::UnboundOffer)),
            Phase::Bound { buyer_local, buyer_foreign } => {
                if buyer_local == o.seller {
                    (pre, Err(P2PError::SelfTradeForbidden))
                } else if !can_move(
                    pre.balances,
                    Holder::Vault,
                    Holder::Party(buyer_local),
                    o.offered_asset,
                    o.offered_amount,
                ) {
                    (pre, Err(P2PError::TransferFailure))
                } else {
                    let done = InterchainOriginSolOffer {
                        phase: Phase::Finalized { buyer_local, buyer_foreign },
                        ..o
                    };
                    let ev = InterchainSwapCompletedEvent {
                        trade_id,
                        buyer: buyer_local,
                        seller: o.seller,
                        offered_transferred: o.offered_amount,
                        wanted_transferred: o.wanted_amount,
                        completed: true,
                    };
                    (
                        EngineView {
                            balances: after_move(
                                pre.balances,
                                Holder::Vault,
                                Holder::Party(buyer_local),
                                o.offered_asset,
                                o.offered_amount,
                            ),
                            local: pre.local.insert(trade_id, done),
                            ..pre
                        },
                        Ok(ev),
                    )
                }
            },
        }
    }
}

impl Engine {
    /// A fresh engine: empty vaults, no balances, no records.
    pub fn new() -> (e: Engine)
        ensures
            forall|k: (Holder, AssetRef)| e@.balances[k] == 0,
            e@.intra == Map::<(AccountId, u64), Offer>::empty(),
            e@.foreign == Map::<u64, InterchainOffer>::empty(),
            e@.local == Map::<u64, InterchainOriginSolOffer>::empty(),
    {
        Engine {
            ledger: Ledger::new(),
            intra: OfferTable::new(),
            foreign: InterchainOfferTable::new(),
            local: InterchainOriginSolOfferTable::new(),
        }
    }

    /// Credit a party from outside the engine: the inflow that funds
    /// accounts before they trade.  Fails only if the balance cannot take
    /// the credit.
    pub fn fund(&mut self, to: AccountId, asset: AssetRef, amount: u64) -> (r: Result<
        (),
        P2PError,
    >)
        ensures
            r is Ok <==> old(self)@.balances[(Holder::Party(to), asset)] + amount <= u64::MAX,
            r is Ok ==> final(self)@ == (EngineView {
                balances: old(self)@.balances.insert(
                    (Holder::Party(to), asset),
                    (old(self)@.balances[(Holder::Party(to), asset)] + amount) as u64,
                ),
                ..old(self)@
            }),
            r is Err ==> final(self)@ == old(self)@ && r == Err::<(), P2PError>(
                P2PError::TransferFailure,
            ),
    {
        self.ledger.fund(to, asset, amount)
    }

    /// The balance of `holder` in `asset`.
    pub fn balance(&self, holder: Holder, asset: AssetRef) -> (r: u64)
        ensures
            r == self@.balances[(holder, asset)],
    {
        self.ledger.balance(holder, asset)
    }

    /// The intra-chain offer stored under `(maker, trade_id)`, if any.
    pub fn intra_offer(&self, maker: AccountId, trade_id: u64) -> (r: Option<Offer>)
        ensures
            match r {
                Some(o) => self@.intra.contains_key((maker, trade_id)) && self@.intra[(
                    maker,
                    trade_id,
                )] == o,
                None => !self@.intra.contains_key((maker, trade_id)),
            },
    {
        self.intra.get(maker, trade_id)
    }

    /// The foreign-origin offer stored under `trade_id`, if any.
    pub fn foreign_offer(&self, trade_id: u64) -> (r: Option<InterchainOffer>)
        ensures
            match r {
                Some(o) => self@.foreign.contains_key(trade_id) && self@.foreign[trade_id] == o,
                None => !self@.foreign.contains_key(trade_id),
            },
    {
        self.foreign.get(trade_id)
    }

    /// The local-origin offer stored under `trade_id`, if any.
    pub fn local_offer(&self, trade_id: u64) -> (r: Option<InterchainOriginSolOffer>)
        ensures
            match r {
                Some(o) => self@.local.contains_key(trade_id) && self@.local[trade_id] == o,
                None => !self@.local.contains_key(trade_id),
            },
    {
        self.local.get(trade_id)
    }

    /// Create an intra-chain offer: atomically move the offered amount from
    /// the maker into the vault and write the record, keyed by
    /// `(maker, trade_id)`.
    pub fn create_intra_offer(
        &mut self,
        maker: AccountId,
        trade_id: u64,
        offered_asset: AssetRef,
        wanted_asset: AssetRef,
        offered_amount: u64,
        wanted_amount: u64,
    ) -> (r: Result<CreateTradeEvent, P2PError>)
        ensures
            final(self)@ == create_intra_outcome(
                old(self)@,
                maker,
                trade_id,
                offered_asset,
                wanted_asset,
                offered_amount,
                wanted_amount,
            ).0,
            r == create_intra_outcome(
                old(self)@,
                maker,
                trade_id,
                offered_asset,
                wanted_asset,
                offered_amount,
                wanted_amount,
            ).1,
    {
        if offered_amount == 0 {
            return Err(P2PError::InvalidAmount);
        }
        if self.intra.get(maker, trade_id).is_some() {
            return Err(P2PError::DuplicateOffer);
        }
        match self.ledger.deposit(maker, offered_asset, offered_amount) {
            Err(e) => {
                return Err(e);
            },
            Ok(()) => {},
        }
        let o = Offer {
            trade_id,
            maker,
            offered_asset,
            wanted_asset,
            offered_amount,
            wanted_amount,
            completed: false,
        };
        self.intra.insert_new(o);
        Ok(
            CreateTradeEvent {
                trade_id,
                maker,
                offered_asset,
                wanted_asset,
                offered_amount,
                wanted_amount,
                completed: false,
            },
        )
    }

    /// Settle an intra-chain offer: the vault pays the taker the offered
    /// leg under the engine's own authority, the taker pays the maker the
    /// wanted leg, and only then does the record complete.  If either
    /// transfer is rejected the whole transition aborts and the offer stays
    /// open.
    pub fn settle_intra_offer(&mut self, maker: AccountId, trade_id: u64, taker: AccountId) -> (r:
        Result<SwapCompletedEvent, P2PError>)
        ensures
            final(self)@ == settle_intra_outcome(old(self)@, maker, trade_id, taker).0,
            r == settle_intra_outcome(old(self)@, maker, trade_id, taker).1,
    {
        proof {
            self.ledger.lemma_view_total();
        }
        let o = match self.intra.get(maker, trade_id) {
            None => {
                return Err(P2PError::UnknownOffer);
            },
            Some(o) => o,
        };
        if o.completed {
            return Err(P2PError::AlreadySettled);
        }
        if taker == o.maker {
            return Err(P2PError::SelfTradeForbidden);
        }
        let auth = VaultAuth { seal: () };
        match self.ledger.withdraw(&auth, taker, o.offered_asset, o.offered_amount) {
            Err(e) => {
                return Err(e);
            },
            Ok(()) => {},
        }
        match self.ledger.pay(taker, o.maker, o.wanted_asset, o.wanted_amount) {
            Err(e) => {
                proof {
                    lemma_move_roundtrip(
                        old(self)@.balances,
                        Holder::Vault,
                        Holder::Party(taker),
                        o.offered_asset,
                        o.offered_amount,
                    );
                }
                match self.ledger.deposit(taker, o.offered_asset, o.offered_amount) {
                    Ok(()) => {},
                    Err(_) => {
                        proof {
                            assert(false);
                        }
                    },
                }
                return Err(e);
            },
            Ok(()) => {},
        }
        self.intra.update_at(Offer { completed: true, ..o });
        Ok(
            SwapCompletedEvent {
                trade_id,
                maker: o.maker,
                taker,
                offered_transferred: o.offered_amount,
                wanted_transferred: o.wanted_amount,
                completed: true,
            },
        )
    }

    /// Relay a foreign-origin offer observed on the foreign chain: write
    /// the promise record with the buyer side unset.  No funds move here —
    /// the offered leg is already escrowed on the foreign chain.
    pub fn relay_foreign_origin_offer(
        &mut self,
        trade_id: u64,
        chain_id: u64,
        seller_foreign: ForeignAddr,
        seller_payout: AccountId,
        offered_amount: u64,
        wanted_asset: AssetRef,
        wanted_amount: u64,
    ) -> (r: Result<RelayEvmTradeEvent, P2PError>)
        ensures
            final(self)@ == relay_foreign_outcome(
                old(self)@,
                trade_id,
                chain_id,
                seller_foreign,
                seller_payout,
                offered_amount,
                wanted_asset,
                wanted_amount,
            ).0,
            r == relay_foreign_outcome(
                old(self)@,
                trade_id,
                chain_id,
                seller_foreign,
                seller_payout,
                offered_amount,
                wanted_asset,
                wanted_amount,
            ).1,
    {
        if offered_amount == 0 {
            return Err(P2PError::InvalidAmount);
        }
        if self.foreign.get(trade_id).is_some() {
            return Err(P2PError::DuplicateOffer);
        }
        let o = InterchainOffer {
            trade_id,
            chain_id,
            seller_foreign,
            seller_payout,
            offered_amount,
            wanted_asset,
            wanted_amount,
            fee_collected: 0,
            phase: Phase::Created,
        };
        self.foreign.insert_new(o);
        Ok(
            RelayEvmTradeEvent {
                trade_id,
                chain_id,
                seller_foreign,
                seller_payout,
                offered_amount,
                wanted_asset,
                wanted_amount,
                fee_collected: 0,
                completed: false,
            },
        )
    }

    /// The local buyer deposits the wanted leg of a foreign-origin offer
    /// and is bound onto the record — at most once.  The deposit must be
    /// exactly the recorded wanted amount in the recorded wanted asset.
    pub fn bind_and_deposit_foreign_leg(
        &mut self,
        trade_id: u64,
        buyer_local: AccountId,
        buyer_foreign: ForeignAddr,
        deposit_asset: AssetRef,
        deposit_amount: u64,
    ) -> (r: Result<InterchainCreateTradeEvent, P2PError>)
        ensures
            final(self)@ == bind_foreign_leg_outcome(
                old(self)@,
                trade_id,
                buyer_local,
                buyer_foreign,
                deposit_asset,
                deposit_amount,
            ).0,
            r == bind_foreign_leg_outcome(
                old(self)@,
                trade_id,
                buyer_local,
                buyer_foreign,
                deposit_asset,
                deposit_amount,
            ).1,
    {
        let o = match self.foreign.get(trade_id) {
            None => {
                return Err(P2PError::UnknownOffer);
            },
            Some(o) => o,
        };
        match o.phase {
            Phase::Created => {},
            _ => {
                return Err(P2PError::AlreadyBound);
            },
        }
        if deposit_amount != o.wanted_amount {
            return Err(P2PError::InvalidAmount);
        }
        if deposit_asset != o.wanted_asset {
            return Err(P2PError::TransferFailure);
        }
        match self.ledger.deposit(buyer_local, o.wanted_asset, o.wanted_amount) {
            Err(e) => {
                return Err(e);
            },
            Ok(()) => {},
        }
        self.foreign.update_at(
            InterchainOffer { phase: Phase::Bound { buyer_local, buyer_foreign }, ..o },
        );
        Ok(
            InterchainCreateTradeEvent {
                trade_id,
                buyer_local,
                buyer_foreign,
                wanted_asset: o.wanted_asset,
                wanted_amount: o.wanted_amount,
                offered_amount: o.offered_amount,
                completed: false,
            },
        )
    }

    /// Finalize a foreign-origin offer: pay the recorded wanted amount out
    /// of the vault to the seller's local payout address and complete the
    /// record.  Fails unless the buyer side is bound, the trade is still
    /// open, and the recorded payout recipient differs from the recorded
    /// deposit owner.
    pub fn finalize_foreign_origin_offer(&mut self, trade_id: u64) -> (r: Result<
        InterchainSwapCompletedEvent,
        P2PError,
    >)
        ensures
            final(self)@ == finalize_foreign_outcome(old(self)@, trade_id).0,
            r == finalize_foreign_outcome(old(self)@, trade_id).1,
    {
        let o = match self.foreign.get(trade_id) {
            None => {
                return Err(P2PError::UnknownOffer);
            },
            Some(o) => o,
        };
        let (buyer_local, buyer_foreign) = match o.phase {
            Phase::Finalized { .. } => {
                return Err(P2PError::AlreadySettled);
            },
            Phase::Created => {
                return Err(P2PError::UnboundOffer);
            },
            Phase::Bound { buyer_local, buyer_foreign } => (buyer_local, buyer_foreign),
        };
        if o.seller_payout == buyer_local {
            return Err(P2PError::SelfTradeForbidden);
        }
        let auth = VaultAuth { seal: () };
        match self.ledger.withdraw(&auth, o.seller_payout, o.wanted_asset, o.wanted_amount) {
            Err(e) => {
                return Err(e);
            },
            Ok(()) => {},
        }
        self.foreign.update_at(
            InterchainOffer { phase: Phase::Finalized { buyer_local, buyer_foreign }, ..o },
        );
        Ok(
            InterchainSwapCompletedEvent {
                trade_id,
                buyer: buyer_local,
                seller: o.seller_payout,
                offered_transferred: o.offered_amount,
                wanted_transferred: o.wanted_amount,
                completed: true,
            },
        )
    }

    /// Create a local-origin offer: atomically move the seller's deposit
    /// into the vault and write the record, with the external buyer's side
    /// left unset.
    pub fn create_local_origin_offer(
        &mut self,
        trade_id: u64,
        chain_id: u64,
        seller: AccountId,
        seller_foreign: ForeignAddr,
        offered_asset: AssetRef,
        offered_amount: u64,
        wanted_amount: u64,
    ) -> (r: Result<InterchainOriginSolCreateTradeEvent, P2PError>)
        ensures
            final(self)@ == create_local_outcome(
                old(self)@,
                trade_id,
                chain_id,
                seller,
                seller_foreign,
                offered_asset,
                offered_amount,
                wanted_amount,
            ).0,
            r == create_local_outcome(
                old(self)@,
                trade_id,
                chain_id,
                seller,
                seller_foreign,
                offered_asset,
                offered_amount,
                wanted_amount,
            ).1,
    {
        if offered_amount == 0 {
            return Err(P2PError::InvalidAmount);
        }
        if self.local.get(trade_id).is_some() {
            return Err(P2PError::DuplicateOffer);
        }
        match self.ledger.deposit(seller, offered_asset, offered_amount) {
            Err(e) => {
                return Err(e);
            },
            Ok(()) => {},
        }
        let o = InterchainOriginSolOffer {
            trade_id,
            chain_id,
            seller,
            seller_foreign,
            offered_asset,
            offered_amount,
            wanted_amount,
            fee_collected: 0,
            phase: Phase::Created,
        };
        self.local.insert_new(o);
        Ok(
            InterchainOriginSolCreateTradeEvent {
                trade_id,
                chain_id,
                seller,
                seller_foreign,
                offered_asset,
                offered_amount,
                wanted_amount,
                completed: false,
            },
        )
    }

    /// Bind the foreign-side buyer of a local-origin offer: write their
    /// local payout address and foreign identity onto the record — at most
    /// once, and no funds move.
    pub fn bind_foreign_buyer(
        &mut self,
        trade_id: u64,
        buyer_payout: AccountId,
        buyer_foreign: ForeignAddr,
    ) -> (r: Result<ForeignBuyerBoundEvent, P2PError>)
        ensures
            final(self)@ == bind_foreign_buyer_outcome(
                old(self)@,
                trade_id,
                buyer_payout,
                buyer_foreign,
            ).0,
            r == bind_foreign_buyer_outcome(old(self)@, trade_id, buyer_payout, buyer_foreign).1,
    {
        let o = match self.local.get(trade_id) {
            None => {
                return Err(P2PError::UnknownOffer);
            },
            Some(o) => o,
        };
        match o.phase {
            Phase::Created => {},
            _ => {
                return Err(P2PError::AlreadyBound);
            },
        }
        self.local.update_at(
            InterchainOriginSolOffer {
                phase: Phase::Bound { buyer_local: buyer_payout, buyer_foreign },
                ..o
            },
        );
        Ok(
            ForeignBuyerBoundEvent {
                trade_id,
                buyer_payout,
                buyer_foreign,
                offered_asset: o.offered_asset,
                offered_amount: o.offered_amount,
                wanted_amount: o.wanted_amount,
                completed: false,
            },
        )
    }

    /// Finalize a local-origin offer: pay the recorded offered amount out
    /// of the vault to the bound buyer's local payout address and complete
    /// the record.  Fails unless the buyer side is bound, the trade is
    /// still open, and the bound payout recipient differs from the stored
    /// seller.
    pub fn finalize_local_origin_offer(&mut self, trade_id: u64) -> (r: Result<
        InterchainSwapCompletedEvent,
        P2PError,
    >)
        ensures
            final(self)@ == finalize_local_outcome(old(self)@, trade_id).0,
            r == finalize_local_outcome(old(self)@, trade_id).1,
    {
        let o = match self.local.get(trade_id) {
            None => {
                return Err(P2PError::UnknownOffer);
            },
            Some(o) => o,
        };
        let (buyer_local, buyer_foreign) = match o.phase {
            Phase::Finalized { .. } => {
                return Err(P2PError::AlreadySettled);
            },
            Phase::Created => {
                return Err(P2PError::UnboundOffer);
            },
            Phase::Bound { buyer_local, buyer_foreign } => (buyer_local, buyer_foreign),
        };
        if buyer_local == o.seller {
            return Err(P2PError::SelfTradeForbidden);
        }
        let auth = VaultAuth { seal: () };
        match self.ledger.withdraw(&auth, buyer_local, o.offered_asset, o.offered_amount) {
            Err(e) => {
                return Err(e);
            },
            Ok(()) => {},
        }
        self.local.update_at(
            InterchainOriginSolOffer {
                phase: Phase::Finalized { buyer_local, buyer_foreign },
                ..o
            },
        );
        Ok(
            InterchainSwapCompletedEvent {
                trade_id,
                buyer: buyer_local,
                seller: o.seller,
                offered_transferred: o.offered_amount,
                wanted_transferred: o.wanted_amount,
                completed: true,
            },
        )
    }
}

} // verus!
