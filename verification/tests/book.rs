use p2p_swap::assets::{AssetRef, Holder};
use p2p_swap::engine::Engine;
use p2p_swap::errors::P2PError;
use p2p_swap::ids::AccountId;
use p2p_swap::ledger::Ledger;

#[test]
fn fresh_book_has_zero_balances_everywhere() {
    let l = Ledger::new();
    assert_eq!(l.balance(Holder::Vault, AssetRef::Native), 0);
    assert_eq!(l.balance(Holder::Party(AccountId(1)), AssetRef::Token(3)), 0);
}

#[test]
fn deposit_moves_from_party_to_vault() {
    let mut l = Ledger::new();
    l.fund(AccountId(1), AssetRef::Native, 100).unwrap();
    l.deposit(AccountId(1), AssetRef::Native, 40).unwrap();
    assert_eq!(l.balance(Holder::Party(AccountId(1)), AssetRef::Native), 60);
    assert_eq!(l.balance(Holder::Vault, AssetRef::Native), 40);
}

#[test]
fn deposit_beyond_balance_is_rejected_and_changes_nothing() {
    let mut l = Ledger::new();
    l.fund(AccountId(1), AssetRef::Native, 100).unwrap();
    let r = l.deposit(AccountId(1), AssetRef::Native, 101);
    assert_eq!(r, Err(P2PError::TransferFailure));
    assert_eq!(l.balance(Holder::Party(AccountId(1)), AssetRef::Native), 100);
    assert_eq!(l.balance(Holder::Vault, AssetRef::Native), 0);
}

#[test]
fn pay_moves_between_parties_only() {
    let mut l = Ledger::new();
    l.fund(AccountId(1), AssetRef::Token(5), 30).unwrap();
    l.pay(AccountId(1), AccountId(2), AssetRef::Token(5), 12).unwrap();
    assert_eq!(l.balance(Holder::Party(AccountId(1)), AssetRef::Token(5)), 18);
    assert_eq!(l.balance(Holder::Party(AccountId(2)), AssetRef::Token(5)), 12);
    assert_eq!(l.balance(Holder::Vault, AssetRef::Token(5)), 0);
}

#[test]
fn funding_beyond_the_representable_balance_is_rejected() {
    let mut e = Engine::new();
    let rich = AccountId(8);
    e.fund(rich, AssetRef::Native, u64::MAX).unwrap();
    let r = e.fund(rich, AssetRef::Native, 1);
    assert_eq!(r, Err(P2PError::TransferFailure));
    assert_eq!(e.balance(Holder::Party(rich), AssetRef::Native), u64::MAX);
}

#[test]
fn credit_overflow_aborts_a_transfer() {
    // The receiving balance cannot take the credit, so the move is
    // rejected and the payer keeps the funds.
    let mut l = Ledger::new();
    l.fund(AccountId(1), AssetRef::Native, 50).unwrap();
    l.fund(AccountId(2), AssetRef::Native, u64::MAX).unwrap();
    let r = l.pay(AccountId(1), AccountId(2), AssetRef::Native, 50);
    assert_eq!(r, Err(P2PError::TransferFailure));
    assert_eq!(l.balance(Holder::Party(AccountId(1)), AssetRef::Native), 50);
    assert_eq!(l.balance(Holder::Party(AccountId(2)), AssetRef::Native), u64::MAX);
}
