use p2p_swap::assets::{AssetRef, Holder};
use p2p_swap::engine::Engine;
use p2p_swap::errors::P2PError;
use p2p_swap::ids::{AccountId, ForeignAddr};
use p2p_swap::offers::Phase;

const USD: AssetRef = AssetRef::Token(11);

fn foreign_setup() -> (Engine, AccountId, AccountId) {
    let mut e = Engine::new();
    let buyer = AccountId(3);
    let seller_payout = AccountId(4);
    e.fund(buyer, USD, 200).unwrap();
    (e, buyer, seller_payout)
}

#[test]
fn foreign_round_trip_moves_exactly_the_wanted_amount() {
    let (mut e, buyer, seller_payout) = foreign_setup();
    let rel = e
        .relay_foreign_origin_offer(42, 5, ForeignAddr(77), seller_payout, 17, USD, 150)
        .unwrap();
    assert_eq!(rel.trade_id, 42);
    assert_eq!(rel.fee_collected, 0);
    assert!(!rel.completed);
    // The relay itself moves no funds.
    assert_eq!(e.balance(Holder::Vault, USD), 0);
    let o = e.foreign_offer(42).unwrap();
    assert!(matches!(o.phase, Phase::Created));

    let bound = e
        .bind_and_deposit_foreign_leg(42, buyer, ForeignAddr(88), USD, 150)
        .unwrap();
    assert_eq!(e.balance(Holder::Vault, USD), 150);
    assert_eq!(e.balance(Holder::Party(buyer), USD), 50);
    assert_eq!(bound.buyer_local, buyer);
    assert!(matches!(
        e.foreign_offer(42).unwrap().phase,
        Phase::Bound { .. }
    ));

    let fin = e.finalize_foreign_origin_offer(42).unwrap();
    assert_eq!(e.balance(Holder::Vault, USD), 0);
    assert_eq!(e.balance(Holder::Party(seller_payout), USD), 150);
    assert!(matches!(
        e.foreign_offer(42).unwrap().phase,
        Phase::Finalized { .. }
    ));
    assert_eq!(fin.buyer, buyer);
    assert_eq!(fin.seller, seller_payout);
    assert_eq!(fin.wanted_transferred, 150);
    assert!(fin.completed);
}

#[test]
fn foreign_finalize_before_bind_is_unbound() {
    let (mut e, _buyer, seller_payout) = foreign_setup();
    e.relay_foreign_origin_offer(42, 5, ForeignAddr(77), seller_payout, 17, USD, 150)
        .unwrap();
    let r = e.finalize_foreign_origin_offer(42);
    assert_eq!(r, Err(P2PError::UnboundOffer));
    assert_eq!(e.balance(Holder::Party(seller_payout), USD), 0);
}

#[test]
fn foreign_bind_before_relay_is_unknown() {
    let (mut e, buyer, _seller_payout) = foreign_setup();
    let r = e.bind_and_deposit_foreign_leg(42, buyer, ForeignAddr(88), USD, 150);
    assert_eq!(r, Err(P2PError::UnknownOffer));
    assert_eq!(e.balance(Holder::Party(buyer), USD), 200);
    assert_eq!(e.finalize_foreign_origin_offer(42), Err(P2PError::UnknownOffer));
}

#[test]
fn foreign_bind_happens_at_most_once() {
    let (mut e, buyer, seller_payout) = foreign_setup();
    let rival = AccountId(9);
    e.fund(rival, USD, 200).unwrap();
    e.relay_foreign_origin_offer(42, 5, ForeignAddr(77), seller_payout, 17, USD, 150)
        .unwrap();
    e.bind_and_deposit_foreign_leg(42, buyer, ForeignAddr(88), USD, 150)
        .unwrap();
    let r = e.bind_and_deposit_foreign_leg(42, rival, ForeignAddr(99), USD, 150);
    assert_eq!(r, Err(P2PError::AlreadyBound));
    // No double deposit: the vault holds one deposit and the rival paid
    // nothing.
    assert_eq!(e.balance(Holder::Vault, USD), 150);
    assert_eq!(e.balance(Holder::Party(rival), USD), 200);
}

#[test]
fn foreign_bind_must_match_the_wanted_leg() {
    let (mut e, buyer, seller_payout) = foreign_setup();
    e.relay_foreign_origin_offer(42, 5, ForeignAddr(77), seller_payout, 17, USD, 150)
        .unwrap();
    let wrong_amount = e.bind_and_deposit_foreign_leg(42, buyer, ForeignAddr(88), USD, 149);
    assert_eq!(wrong_amount, Err(P2PError::InvalidAmount));
    let wrong_asset =
        e.bind_and_deposit_foreign_leg(42, buyer, ForeignAddr(88), AssetRef::Native, 150);
    assert_eq!(wrong_asset, Err(P2PError::TransferFailure));
    assert_eq!(e.balance(Holder::Vault, USD), 0);
    assert!(matches!(e.foreign_offer(42).unwrap().phase, Phase::Created));
}

#[test]
fn foreign_finalize_to_the_depositor_is_self_trade() {
    // The recorded payout recipient equals the bound deposit owner.
    let (mut e, buyer, _seller_payout) = foreign_setup();
    e.relay_foreign_origin_offer(42, 5, ForeignAddr(77), buyer, 17, USD, 150)
        .unwrap();
    e.bind_and_deposit_foreign_leg(42, buyer, ForeignAddr(88), USD, 150)
        .unwrap();
    let r = e.finalize_foreign_origin_offer(42);
    assert_eq!(r, Err(P2PError::SelfTradeForbidden));
    assert_eq!(e.balance(Holder::Vault, USD), 150);
}

#[test]
fn foreign_relay_rejects_zero_offered_and_duplicates() {
    let (mut e, _buyer, seller_payout) = foreign_setup();
    let zero = e.relay_foreign_origin_offer(42, 5, ForeignAddr(77), seller_payout, 0, USD, 150);
    assert_eq!(zero, Err(P2PError::InvalidAmount));
    e.relay_foreign_origin_offer(42, 5, ForeignAddr(77), seller_payout, 17, USD, 150)
        .unwrap();
    let dup = e.relay_foreign_origin_offer(42, 6, ForeignAddr(1), seller_payout, 18, USD, 150);
    assert_eq!(dup, Err(P2PError::DuplicateOffer));
}

#[test]
fn foreign_finalize_happens_at_most_once() {
    let (mut e, buyer, seller_payout) = foreign_setup();
    e.relay_foreign_origin_offer(42, 5, ForeignAddr(77), seller_payout, 17, USD, 150)
        .unwrap();
    e.bind_and_deposit_foreign_leg(42, buyer, ForeignAddr(88), USD, 150)
        .unwrap();
    e.finalize_foreign_origin_offer(42).unwrap();
    let r = e.finalize_foreign_origin_offer(42);
    assert_eq!(r, Err(P2PError::AlreadySettled));
    assert_eq!(e.balance(Holder::Party(seller_payout), USD), 150);
}

#[test]
fn local_round_trip_credits_the_bound_buyer_exactly() {
    let mut e = Engine::new();
    let seller = AccountId(5);
    let buyer_payout = AccountId(6);
    e.fund(seller, AssetRef::Native, 300).unwrap();
    let created = e
        .create_local_origin_offer(8, 5, seller, ForeignAddr(21), AssetRef::Native, 120, 900)
        .unwrap();
    assert_eq!(created.offered_amount, 120);
    assert!(!created.completed);
    assert_eq!(e.balance(Holder::Vault, AssetRef::Native), 120);
    assert_eq!(e.balance(Holder::Party(seller), AssetRef::Native), 180);

    let vault_before = e.balance(Holder::Vault, AssetRef::Native);
    let bound = e
        .bind_foreign_buyer(8, buyer_payout, ForeignAddr(22))
        .unwrap();
    // Binding moves no funds.
    assert_eq!(e.balance(Holder::Vault, AssetRef::Native), vault_before);
    assert_eq!(bound.buyer_payout, buyer_payout);
    assert!(matches!(e.local_offer(8).unwrap().phase, Phase::Bound { .. }));

    let fin = e.finalize_local_origin_offer(8).unwrap();
    assert_eq!(e.balance(Holder::Party(buyer_payout), AssetRef::Native), 120);
    assert_eq!(e.balance(Holder::Vault, AssetRef::Native), 0);
    assert!(matches!(
        e.local_offer(8).unwrap().phase,
        Phase::Finalized { .. }
    ));
    assert_eq!(fin.buyer, buyer_payout);
    assert_eq!(fin.seller, seller);
    assert_eq!(fin.offered_transferred, 120);
    assert!(fin.completed);
}

#[test]
fn local_create_rejects_zero_offered_and_duplicates() {
    let mut e = Engine::new();
    let seller = AccountId(5);
    e.fund(seller, AssetRef::Native, 300).unwrap();
    let zero = e.create_local_origin_offer(8, 5, seller, ForeignAddr(21), AssetRef::Native, 0, 900);
    assert_eq!(zero, Err(P2PError::InvalidAmount));
    e.create_local_origin_offer(8, 5, seller, ForeignAddr(21), AssetRef::Native, 120, 900)
        .unwrap();
    let dup = e.create_local_origin_offer(8, 5, seller, ForeignAddr(21), AssetRef::Native, 10, 900);
    assert_eq!(dup, Err(P2PError::DuplicateOffer));
    assert_eq!(e.balance(Holder::Vault, AssetRef::Native), 120);
}

#[test]
fn local_bind_happens_at_most_once() {
    let mut e = Engine::new();
    let seller = AccountId(5);
    e.fund(seller, AssetRef::Native, 300).unwrap();
    e.create_local_origin_offer(8, 5, seller, ForeignAddr(21), AssetRef::Native, 120, 900)
        .unwrap();
    e.bind_foreign_buyer(8, AccountId(6), ForeignAddr(22)).unwrap();
    let r = e.bind_foreign_buyer(8, AccountId(7), ForeignAddr(23));
    assert_eq!(r, Err(P2PError::AlreadyBound));
    // The first binding stands.
    match e.local_offer(8).unwrap().phase {
        Phase::Bound { buyer_local, .. } => assert_eq!(buyer_local, AccountId(6)),
        _ => panic!("expected a bound record"),
    }
}

#[test]
fn local_finalize_before_bind_is_unbound() {
    let mut e = Engine::new();
    let seller = AccountId(5);
    e.fund(seller, AssetRef::Native, 300).unwrap();
    e.create_local_origin_offer(8, 5, seller, ForeignAddr(21), AssetRef::Native, 120, 900)
        .unwrap();
    assert_eq!(e.finalize_local_origin_offer(8), Err(P2PError::UnboundOffer));
    assert_eq!(e.balance(Holder::Vault, AssetRef::Native), 120);
}

#[test]
fn local_finalize_to_the_seller_is_self_trade() {
    let mut e = Engine::new();
    let seller = AccountId(5);
    e.fund(seller, AssetRef::Native, 300).unwrap();
    e.create_local_origin_offer(8, 5, seller, ForeignAddr(21), AssetRef::Native, 120, 900)
        .unwrap();
    e.bind_foreign_buyer(8, seller, ForeignAddr(22)).unwrap();
    let r = e.finalize_local_origin_offer(8);
    assert_eq!(r, Err(P2PError::SelfTradeForbidden));
    assert_eq!(e.balance(Holder::Vault, AssetRef::Native), 120);
}

#[test]
fn local_binding_of_missing_record_is_unknown() {
    let mut e = Engine::new();
    let r = e.bind_foreign_buyer(8, AccountId(6), ForeignAddr(22));
    assert_eq!(r, Err(P2PError::UnknownOffer));
    assert_eq!(e.finalize_local_origin_offer(8), Err(P2PError::UnknownOffer));
}
