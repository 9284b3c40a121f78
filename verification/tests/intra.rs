use p2p_swap::assets::{AssetRef, Holder};
use p2p_swap::engine::Engine;
use p2p_swap::errors::P2PError;
use p2p_swap::ids::AccountId;

fn funded_engine() -> (Engine, AccountId, AccountId, AssetRef) {
    let mut e = Engine::new();
    let alice = AccountId(1);
    let bob = AccountId(2);
    let asset_b = AssetRef::Token(9);
    e.fund(alice, AssetRef::Native, 1_000).unwrap();
    e.fund(bob, asset_b, 500).unwrap();
    e.fund(bob, AssetRef::Native, 10).unwrap();
    (e, alice, bob, asset_b)
}

#[test]
fn create_deposits_offered_amount_and_records_open_offer() {
    let (mut e, alice, _bob, asset_b) = funded_engine();
    let ev = e
        .create_intra_offer(alice, 7, AssetRef::Native, asset_b, 50, 100)
        .unwrap();
    assert_eq!(e.balance(Holder::Vault, AssetRef::Native), 50);
    assert_eq!(e.balance(Holder::Party(alice), AssetRef::Native), 950);
    let o = e.intra_offer(alice, 7).unwrap();
    assert!(!o.completed);
    assert_eq!(o.offered_amount, 50);
    assert_eq!(o.wanted_amount, 100);
    assert_eq!(o.maker, alice);
    assert_eq!(ev.trade_id, 7);
    assert_eq!(ev.offered_amount, 50);
    assert!(!ev.completed);
}

#[test]
fn create_with_zero_offered_amount_is_invalid() {
    let (mut e, alice, _bob, asset_b) = funded_engine();
    let r = e.create_intra_offer(alice, 7, AssetRef::Native, asset_b, 0, 100);
    assert_eq!(r, Err(P2PError::InvalidAmount));
    assert_eq!(e.balance(Holder::Vault, AssetRef::Native), 0);
    assert!(e.intra_offer(alice, 7).is_none());
}

#[test]
fn create_under_existing_key_is_duplicate() {
    let (mut e, alice, _bob, asset_b) = funded_engine();
    e.create_intra_offer(alice, 7, AssetRef::Native, asset_b, 50, 100)
        .unwrap();
    let r = e.create_intra_offer(alice, 7, AssetRef::Native, asset_b, 60, 100);
    assert_eq!(r, Err(P2PError::DuplicateOffer));
    assert_eq!(e.balance(Holder::Vault, AssetRef::Native), 50);
}

#[test]
fn create_without_funds_is_transfer_failure() {
    let mut e = Engine::new();
    let pauper = AccountId(77);
    let r = e.create_intra_offer(pauper, 1, AssetRef::Native, AssetRef::Token(2), 5, 5);
    assert_eq!(r, Err(P2PError::TransferFailure));
    assert!(e.intra_offer(pauper, 1).is_none());
}

#[test]
fn settle_swaps_both_legs_exactly() {
    // A maker offers 50 native units and wants 100 units of asset B; the
    // taker receives the 50 from the vault and pays the 100 directly.
    let (mut e, alice, bob, asset_b) = funded_engine();
    e.create_intra_offer(alice, 7, AssetRef::Native, asset_b, 50, 100)
        .unwrap();
    let ev = e.settle_intra_offer(alice, 7, bob).unwrap();
    assert_eq!(e.balance(Holder::Vault, AssetRef::Native), 0);
    assert_eq!(e.balance(Holder::Party(bob), AssetRef::Native), 60);
    assert_eq!(e.balance(Holder::Party(bob), asset_b), 400);
    assert_eq!(e.balance(Holder::Party(alice), asset_b), 100);
    assert_eq!(e.balance(Holder::Party(alice), AssetRef::Native), 950);
    let o = e.intra_offer(alice, 7).unwrap();
    assert!(o.completed);
    assert_eq!(ev.maker, alice);
    assert_eq!(ev.taker, bob);
    assert_eq!(ev.offered_transferred, 50);
    assert_eq!(ev.wanted_transferred, 100);
    assert!(ev.completed);
}

#[test]
fn settle_by_the_maker_is_self_trade() {
    let (mut e, alice, _bob, asset_b) = funded_engine();
    e.create_intra_offer(alice, 7, AssetRef::Native, asset_b, 50, 100)
        .unwrap();
    let r = e.settle_intra_offer(alice, 7, alice);
    assert_eq!(r, Err(P2PError::SelfTradeForbidden));
    assert_eq!(e.balance(Holder::Vault, AssetRef::Native), 50);
    assert!(!e.intra_offer(alice, 7).unwrap().completed);
}

#[test]
fn settle_happens_at_most_once() {
    let (mut e, alice, bob, asset_b) = funded_engine();
    e.create_intra_offer(alice, 7, AssetRef::Native, asset_b, 50, 100)
        .unwrap();
    e.settle_intra_offer(alice, 7, bob).unwrap();
    let vault = e.balance(Holder::Vault, AssetRef::Native);
    let bob_b = e.balance(Holder::Party(bob), asset_b);
    let r = e.settle_intra_offer(alice, 7, bob);
    assert_eq!(r, Err(P2PError::AlreadySettled));
    assert_eq!(e.balance(Holder::Vault, AssetRef::Native), vault);
    assert_eq!(e.balance(Holder::Party(bob), asset_b), bob_b);
}

#[test]
fn settle_of_missing_offer_is_unknown() {
    let (mut e, alice, bob, _asset_b) = funded_engine();
    let r = e.settle_intra_offer(alice, 99, bob);
    assert_eq!(r, Err(P2PError::UnknownOffer));
}

#[test]
fn settle_aborts_whole_transition_when_taker_cannot_pay() {
    // The vault leg would succeed, but the taker cannot cover the wanted
    // leg: the whole settlement aborts and the offer stays open.
    let (mut e, alice, _bob, asset_b) = funded_engine();
    let carol = AccountId(3);
    e.create_intra_offer(alice, 7, AssetRef::Native, asset_b, 50, 100)
        .unwrap();
    let r = e.settle_intra_offer(alice, 7, carol);
    assert_eq!(r, Err(P2PError::TransferFailure));
    assert_eq!(e.balance(Holder::Vault, AssetRef::Native), 50);
    assert_eq!(e.balance(Holder::Party(carol), AssetRef::Native), 0);
    assert!(!e.intra_offer(alice, 7).unwrap().completed);
    // Once funded, the same taker can settle the still-open offer.
    e.fund(carol, asset_b, 100).unwrap();
    assert!(e.settle_intra_offer(alice, 7, carol).is_ok());
    assert_eq!(e.balance(Holder::Party(alice), asset_b), 100);
}

#[test]
fn token_offers_settle_in_token_vault() {
    // Both legs are tokens: the vault holds the offered token kind.
    let mut e = Engine::new();
    let maker = AccountId(11);
    let taker = AccountId(12);
    let usd = AssetRef::Token(1);
    let eur = AssetRef::Token(2);
    e.fund(maker, usd, 30).unwrap();
    e.fund(taker, eur, 40).unwrap();
    e.create_intra_offer(maker, 3, usd, eur, 30, 40).unwrap();
    assert_eq!(e.balance(Holder::Vault, usd), 30);
    e.settle_intra_offer(maker, 3, taker).unwrap();
    assert_eq!(e.balance(Holder::Vault, usd), 0);
    assert_eq!(e.balance(Holder::Party(taker), usd), 30);
    assert_eq!(e.balance(Holder::Party(maker), eur), 40);
}

#[test]
fn error_descriptions_name_the_rejection() {
    assert_eq!(P2PError::InvalidAmount.describe(), "invalid or zero amount");
    assert_eq!(
        P2PError::SelfTradeForbidden.describe(),
        "initiator and counterparty cannot be the same"
    );
}
