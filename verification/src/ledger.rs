//! The custodial ledger: who holds how much of which asset.
//!
//! The engine sees the host ledger as a book of balances, one per holder and
//! asset kind, with an atomic "debit here / credit there" primitive.  The
//! vault is a pooled holder on this book: it keeps no ownership metadata of
//! its own, so the offer records are the only source of truth for entitlement
//! to what the vault holds.
//!
//! The view of a ledger is a total map from `(Holder, AssetRef)` to the
//! balance, zero for every pair never touched.  Every operation states
//! exactly which balances change and that all others stay.

use vstd::prelude::*;
use crate::assets::{AssetRef, Holder};
use crate::errors::P2PError;
use crate::ids::AccountId;

verus! {

/// One ledger row: how much of one asset one holder owns.
#[derive(Clone, Copy, PartialEq, Eq, Structural, Debug)]
pub struct BalanceEntry {
    pub holder: Holder,
    pub asset: AssetRef,
    pub amount: u64,
}

/// Balance of `holder` in `asset` according to the rows `s`: the first
/// matching row counts, and a holder with no row owns nothing.
pub open spec fn row_balance(s: Seq<BalanceEntry>, holder: Holder, asset: AssetRef) -> u64
    decreases s.len(),
{
    if s.len() == 0 {
        0u64
    } else if s[0].holder == holder && s[0].asset == asset {
        s[0].amount
    } else {
        row_balance(s.drop_first(), holder, asset)
    }
}

/// Whether balances allow moving `amount` of `asset` from `from` to `to`:
/// the debit must be covered, and the credit must not overflow the
/// receiving balance.
pub open spec fn can_move(
    m: Map<(Holder, AssetRef), u64>,
    from: Holder,
    to: Holder,
    asset: AssetRef,
    amount: u64,
) -> bool {
    amount <= m[(from, asset)] && (from == to || m[(to, asset)] + amount <= u64::MAX)
}

/// The balances after moving `amount` of `asset` from `from` to `to`.
/// A move between a holder and itself leaves the book as it is.
pub open spec fn after_move(
    m: Map<(Holder, AssetRef), u64>,
    from: Holder,
    to: Holder,
    asset: AssetRef,
    amount: u64,
) -> Map<(Holder, AssetRef), u64> {
    if from == to {
        m
    } else {
        m.insert((from, asset), (m[(from, asset)] - amount) as u64)
            .insert((to, asset), (m[(to, asset)] + amount) as u64)
    }
}

/// A move can be undone: moving the amount straight back is always possible
/// and restores the book exactly.  Stated for total balance maps, which a
/// ledger view always is.
pub proof fn lemma_move_roundtrip(
    m: Map<(Holder, AssetRef), u64>,
    from: Holder,
    to: Holder,
    asset: AssetRef,
    amount: u64,
)
    requires
        forall|k: (Holder, AssetRef)| #[trigger] m.dom().contains(k),
        can_move(m, from, to, asset, amount),
    ensures
        can_move(after_move(m, from, to, asset, amount), to, from, asset, amount),
        after_move(after_move(m, from, to, asset, amount), to, from, asset, amount) == m,
{
    if from != to {
        let m1 = after_move(m, from, to, asset, amount);
        assert(m1[(to, asset)] == m[(to, asset)] + amount);
        assert(m1[(from, asset)] == m[(from, asset)] - amount);
        assert(after_move(m1, to, from, asset, amount) =~= m);
    }
}

/// Proof that a vault debit was authorized by the settlement engine itself.
/// Only this crate can produce a value of this type, so no outside caller
/// can drain a vault directly: the engine mints the capability exactly where
/// an offer record entitles the recipient to the payout.
pub struct VaultAuth {
    pub(crate) seal: (),
}

/// The balance book.
pub struct Ledger {
    rows: Vec<BalanceEntry>,
}

impl View for Ledger {
    type V = Map<(Holder, AssetRef), u64>;

    closed spec fn view(&self) -> Map<(Holder, AssetRef), u64> {
        Map::new(
            |k: (Holder, AssetRef)| true,
            |k: (Holder, AssetRef)| row_balance(self.rows@, k.0, k.1),
        )
    }
}

proof fn lemma_row_balance_at(s: Seq<BalanceEntry>, i: int, holder: Holder, asset: AssetRef)
    requires
        0 <= i < s.len(),
        s[i].holder == holder,
        s[i].asset == asset,
        forall|j: int| 0 <= j < i ==> !(s[j].holder == holder && s[j].asset == asset),
    ensures
        row_balance(s, holder, asset) == s[i].amount,
    decreases i,
{
    if i > 0 {
        assert forall|j: int| 0 <= j < i - 1 implies !(s.drop_first()[j].holder == holder
            && s.drop_first()[j].asset == asset) by {
            assert(s.drop_first()[j] == s[j + 1]);
        }
        assert(s.drop_first()[i - 1] == s[i]);
        lemma_row_balance_at(s.drop_first(), i - 1, holder, asset);
    }
}

proof fn lemma_row_balance_absent(s: Seq<BalanceEntry>, holder: Holder, asset: AssetRef)
    requires
        forall|j: int| 0 <= j < s.len() ==> !(s[j].holder == holder && s[j].asset == asset),
    ensures
        row_balance(s, holder, asset) == 0,
    decreases s.len(),
{
    if s.len() > 0 {
        assert forall|j: int| 0 <= j < s.drop_first().len() implies !(s.drop_first()[j].holder
            == holder && s.drop_first()[j].asset == asset) by {
            assert(s.drop_first()[j] == s[j + 1]);
        }
        lemma_row_balance_absent(s.drop_first(), holder, asset);
    }
}

proof fn lemma_row_balance_push_other(
    s: Seq<BalanceEntry>,
    e: BalanceEntry,
    holder: Holder,
    asset: AssetRef,
)
    requires
        !(e.holder == holder && e.asset == asset),
    ensures
        row_balance(s.push(e), holder, asset) == row_balance(s, holder, asset),
    decreases s.len(),
{
    if s.len() == 0 {
        assert(s.push(e)[0] == e);
        lemma_row_balance_absent(s.push(e), holder, asset);
    } else {
        assert(s.push(e)[0] == s[0]);
        if s[0].holder == holder && s[0].asset == asset {
            assert(row_balance(s.push(e), holder, asset) == s[0].amount);
            assert(row_balance(s, holder, asset) == s[0].amount);
        } else {
            lemma_row_balance_push_other(s.drop_first(), e, holder, asset);
            assert(s.push(e).drop_first() =~= s.drop_first().push(e));
            assert(row_balance(s.push(e), holder, asset) == row_balance(
                s.push(e).drop_first(),
                holder,
                asset,
            ));
            assert(row_balance(s, holder, asset) == row_balance(s.drop_first(), holder, asset));
        }
    }
}

proof fn lemma_row_balance_update_other(
    s: Seq<BalanceEntry>,
    i: int,
    e: BalanceEntry,
    holder: Holder,
    asset: AssetRef,
)
    requires
        0 <= i < s.len(),
        !(s[i].holder == holder && s[i].asset == asset),
        !(e.holder == holder && e.asset == asset),
    ensures
        row_balance(s.update(i, e), holder, asset) == row_balance(s, holder, asset),
    decreases i,
{
    let t = s.update(i, e);
    if i == 0 {
        assert(t.drop_first() =~= s.drop_first());
    } else {
        assert(t[0] == s[0]);
        if !(s[0].holder == holder && s[0].asset == asset) {
            assert(t.drop_first() =~= s.drop_first().update(i - 1, e));
            lemma_row_balance_update_other(s.drop_first(), i - 1, e, holder, asset);
        }
    }
}

impl Ledger {
    /// A ledger's view is total: every holder/asset pair has a balance.
    pub proof fn lemma_view_total(&self)
        ensures
            forall|k: (Holder, AssetRef)| #[trigger] self@.dom().contains(k),
    {
    }

    /// A fresh book: every balance is zero.
    pub fn new() -> (l: Ledger)
        ensures
            forall|k: (Holder, AssetRef)| l@[k] == 0,
    {
        Ledger { rows: Vec::new() }
    }

    /// Index of the first row for `holder` and `asset`, if one exists.
    fn find_row(&self, holder: Holder, asset: AssetRef) -> (r: Option<usize>)
        ensures
            match r {
                Some(i) => i < self.rows.len() && self.rows@[i as int].holder == holder
                    && self.rows@[i as int].asset == asset && forall|j: int|
                    0 <= j < i ==> !(self.rows@[j].holder == holder && self.rows@[j].asset
                        == asset),
                None => forall|j: int|
                    0 <= j < self.rows.len() ==> !(self.rows@[j].holder == holder
                        && self.rows@[j].asset == asset),
            },
    {
        let mut i: usize = 0;
        while i < self.rows.len()
            invariant
                i <= self.rows.len(),
                forall|j: int|
                    0 <= j < i ==> !(self.rows@[j].holder == holder && self.rows@[j].asset
                        == asset),
            decreases self.rows.len() - i,
        {
            if self.rows[i].holder == holder && self.rows[i].asset == asset {
                return Some(i);
            }
            i = i + 1;
        }
        None
    }

    /// The balance of `holder` in `asset`.
    pub fn balance(&self, holder: Holder, asset: AssetRef) -> (r: u64)
        ensures
            r == self@[(holder, asset)],
    {
        match self.find_row(holder, asset) {
            Some(i) => {
                proof {
                    lemma_row_balance_at(self.rows@, i as int, holder, asset);
                }
                self.rows[i].amount
            },
            None => {
                proof {
                    lemma_row_balance_absent(self.rows@, holder, asset);
                }
                0
            },
        }
    }

    /// Overwrite the balance of `holder` in `asset` with `amount`.
    fn set_balance(&mut self, holder: Holder, asset: AssetRef, amount: u64)
        ensures
            final(self)@ == old(self)@.insert((holder, asset), amount),
    {
        let ghost rows0 = self.rows@;
        let e = BalanceEntry { holder, asset, amount };
        match self.find_row(holder, asset) {
            Some(i) => {
                self.rows.set(i, e);
                proof {
                    assert forall|k: (Holder, AssetRef)|
                        #[trigger] self@[k] == old(self)@.insert((holder, asset), amount)[k] by {
                        if k == (holder, asset) {
                            lemma_row_balance_at(self.rows@, i as int, holder, asset);
                        } else {
                            lemma_row_balance_update_other(rows0, i as int, e, k.0, k.1);
                        }
                    }
                    assert(self@ =~= old(self)@.insert((holder, asset), amount));
                }
            },
            None => {
                self.rows.push(e);
                proof {
                    assert forall|k: (Holder, AssetRef)|
                        #[trigger] self@[k] == old(self)@.insert((holder, asset), amount)[k] by {
                        if k == (holder, asset) {
                            lemma_row_balance_at(self.rows@, rows0.len() as int, holder, asset);
                        } else {
                            lemma_row_balance_push_other(rows0, e, k.0, k.1);
                        }
                    }
                    assert(self@ =~= old(self)@.insert((holder, asset), amount));
                }
            },
        }
    }

    /// Move `amount` of `asset` from `from` to `to` atomically: on any
    /// rejection the book is left exactly as it was.
    fn move_asset(&mut self, from: Holder, to: Holder, asset: AssetRef, amount: u64) -> (r: Result<
        (),
        P2PError,
    >)
        ensures
            r is Ok <==> can_move(old(self)@, from, to, asset, amount),
            r is Ok ==> final(self)@ == after_move(old(self)@, from, to, asset, amount),
            r is Err ==> final(self)@ == old(self)@ && r == Err::<(), P2PError>(
                P2PError::TransferFailure,
            ),
    {
        let from_bal = self.balance(from, asset);
        if amount > from_bal {
            return Err(P2PError::TransferFailure);
        }
        if from == to {
            return Ok(());
        }
        let to_bal = self.balance(to, asset);
        if to_bal > u64::MAX - amount {
            return Err(P2PError::TransferFailure);
        }
        self.set_balance(from, asset, from_bal - amount);
        self.set_balance(to, asset, to_bal + amount);
        proof {
            assert(old(self)@.insert((from, asset), (from_bal - amount) as u64)[(to, asset)]
                == to_bal);
        }
        Ok(())
    }

    /// A party deposits `amount` of `asset` into the vault.
    pub fn deposit(&mut self, from: AccountId, asset: AssetRef, amount: u64) -> (r: Result<
        (),
        P2PError,
    >)
        ensures
            r is Ok <==> can_move(old(self)@, Holder::Party(from), Holder::Vault, asset, amount),
            r is Ok ==> final(self)@ == after_move(
                old(self)@,
                Holder::Party(from),
                Holder::Vault,
                asset,
                amount,
            ),
            r is Err ==> final(self)@ == old(self)@ && r == Err::<(), P2PError>(
                P2PError::TransferFailure,
            ),
    {
        self.move_asset(Holder::Party(from), Holder::Vault, asset, amount)
    }

    /// The vault pays `amount` of `asset` out to a party.  Only the
    /// settlement engine can mint the required [`VaultAuth`] capability.
    pub fn withdraw(&mut self, auth: &VaultAuth, to: AccountId, asset: AssetRef, amount: u64) -> (r:
        Result<(), P2PError>)
        ensures
            r is Ok <==> can_move(old(self)@, Holder::Vault, Holder::Party(to), asset, amount),
            r is Ok ==> final(self)@ == after_move(
                old(self)@,
                Holder::Vault,
                Holder::Party(to),
                asset,
                amount,
            ),
            r is Err ==> final(self)@ == old(self)@ && r == Err::<(), P2PError>(
                P2PError::TransferFailure,
            ),
    {
        let _ = auth;
        self.move_asset(Holder::Vault, Holder::Party(to), asset, amount)
    }

    /// One party pays another directly; the payer signs for their own funds.
    pub fn pay(&mut self, from: AccountId, to: AccountId, asset: AssetRef, amount: u64) -> (r:
        Result<(), P2PError>)
        ensures
            r is Ok <==> can_move(
                old(self)@,
                Holder::Party(from),
                Holder::Party(to),
                asset,
                amount,
            ),
            r is Ok ==> final(self)@ == after_move(
                old(self)@,
                Holder::Party(from),
                Holder::Party(to),
                asset,
                amount,
            ),
            r is Err ==> final(self)@ == old(self)@ && r == Err::<(), P2PError>(
                P2PError::TransferFailure,
            ),
    {
        self.move_asset(Holder::Party(from), Holder::Party(to), asset, amount)
    }

    /// Credit `amount` of `asset` to a party from outside the book: the
    /// inflow that funds parties before they trade.
    pub fn fund(&mut self, to: AccountId, asset: AssetRef, amount: u64) -> (r: Result<
        (),
        P2PError,
    >)
        ensures
            r is Ok <==> old(self)@[(Holder::Party(to), asset)] + amount <= u64::MAX,
            r is Ok ==> final(self)@ == old(self)@.insert(
                (Holder::Party(to), asset),
                (old(self)@[(Holder::Party(to), asset)] + amount) as u64,
            ),
            r is Err ==> final(self)@ == old(self)@ && r == Err::<(), P2PError>(
                P2PError::TransferFailure,
            ),
    {
        let to_bal = self.balance(Holder::Party(to), asset);
        if to_bal > u64::MAX - amount {
            return Err(P2PError::TransferFailure);
        }
        self.set_balance(Holder::Party(to), asset, to_bal + amount);
        Ok(())
    }
}

} // verus!
