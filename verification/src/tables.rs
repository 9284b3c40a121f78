//! Keyed storage for the offer records.
//!
//! One table per record kind.  Intra-chain offers are keyed by
//! `(maker, trade_id)` — the trade identifier is caller-chosen and scoped per
//! maker — while both cross-chain record kinds are keyed by the trade
//! identifier shared with the foreign chain.  A table's view is the partial
//! map from key to record; the engine's contracts are stated over these maps.
//!
//! Records are only ever inserted under a fresh key or updated in place
//! under their own key; nothing is removed, since a settled record is the
//! durable witness that its trade must never settle again.

use vstd::prelude::*;
use crate::ids::AccountId;
use crate::offers::{InterchainOffer, InterchainOriginSolOffer, Offer};

verus! {

/// First record in `s` for `(maker, trade_id)`, if any.
pub open spec fn intra_lookup(s: Seq<Offer>, maker: AccountId, trade_id: u64) -> Option<Offer>
    decreases s.len(),
{
    if s.len() == 0 {
        None
    } else if s[0].maker == maker && s[0].trade_id == trade_id {
        Some(s[0])
    } else {
        intra_lookup(s.drop_first(), maker, trade_id)
    }
}

/// The intra-chain offer records.
pub struct OfferTable {
    items: Vec<Offer>,
}

impl View for OfferTable {
    type V = Map<(AccountId, u64), Offer>;

    closed spec fn view(&self) -> Map<(AccountId, u64), Offer> {
        Map::new(
            |k: (AccountId, u64)| intra_lookup(self.items@, k.0, k.1) is Some,
            |k: (AccountId, u64)| intra_lookup(self.items@, k.0, k.1).unwrap(),
        )
    }
}

proof fn lemma_intra_lookup_at(s: Seq<Offer>, i: int, maker: AccountId, trade_id: u64)
    requires
        0 <= i < s.len(),
        s[i].maker == maker,
        s[i].trade_id == trade_id,
        forall|j: int| 0 <= j < i ==> !(s[j].maker == maker && s[j].trade_id == trade_id),
    ensures
        intra_lookup(s, maker, trade_id) == Some(s[i]),
    decreases i,
{
    if i > 0 {
        assert forall|j: int| 0 <= j < i - 1 implies !(s.drop_first()[j].maker == maker
            && s.drop_first()[j].trade_id == trade_id) by {
            assert(s.drop_first()[j] == s[j + 1]);
        }
        assert(s.drop_first()[i - 1] == s[i]);
        lemma_intra_lookup_at(s.drop_first(), i - 1, maker, trade_id);
    }
}

proof fn lemma_intra_lookup_absent(s: Seq<Offer>, maker: AccountId, trade_id: u64)
    requires
        forall|j: int| 0 <= j < s.len() ==> !(s[j].maker == maker && s[j].trade_id == trade_id),
    ensures
        intra_lookup(s, maker, trade_id) is None,
    decreases s.len(),
{
    if s.len() > 0 {
        assert forall|j: int| 0 <= j < s.drop_first().len() implies !(s.drop_first()[j].maker
            == maker && s.drop_first()[j].trade_id == trade_id) by {
            assert(s.drop_first()[j] == s[j + 1]);
        }
        lemma_intra_lookup_absent(s.drop_first(), maker, trade_id);
    }
}

proof fn lemma_intra_lookup_push_other(s: Seq<Offer>, e: Offer, maker: AccountId, trade_id: u64)
    requires
        !(e.maker == maker && e.trade_id == trade_id),
    ensures
        intra_lookup(s.push(e), maker, trade_id) == intra_lookup(s, maker, trade_id),
    decreases s.len(),
{
    if s.len() == 0 {
        assert(s.push(e)[0] == e);
        lemma_intra_lookup_absent(s.push(e), maker, trade_id);
    } else {
        assert(s.push(e)[0] == s[0]);
        if !(s[0].maker == maker && s[0].trade_id == trade_id) {
            lemma_intra_lookup_push_other(s.drop_first(), e, maker, trade_id);
            assert(s.push(e).drop_first() =~= s.drop_first().push(e));
            assert(intra_lookup(s.push(e), maker, trade_id) == intra_lookup(
                s.push(e).drop_first(),
                maker,
                trade_id,
            ));
            assert(intra_lookup(s, maker, trade_id) == intra_lookup(
                s.drop_first(),
                maker,
                trade_id,
            ));
        }
    }
}

proof fn lemma_intra_lookup_update_other(
    s: Seq<Offer>,
    i: int,
    e: Offer,
    maker: AccountId,
    trade_id: u64,
)
    requires
        0 <= i < s.len(),
        !(s[i].maker == maker && s[i].trade_id == trade_id),
        !(e.maker == maker && e.trade_id == trade_id),
    ensures
        intra_lookup(s.update(i, e), maker, trade_id) == intra_lookup(s, maker, trade_id),
    decreases i,
{
    let t = s.update(i, e);
    if i == 0 {
        assert(t.drop_first() =~= s.drop_first());
    } else {
        assert(t[0] == s[0]);
        if !(s[0].maker == maker && s[0].trade_id == trade_id) {
            assert(t.drop_first() =~= s.drop_first().update(i - 1, e));
            lemma_intra_lookup_update_other(s.drop_first(), i - 1, e, maker, trade_id);
        }
    }
}

impl OfferTable {
    /// An empty table.
    pub fn new() -> (t: OfferTable)
        ensures
            t@ == Map::<(AccountId, u64), Offer>::empty(),
    {
        let t = OfferTable { items: Vec::new() };
        proof {
            assert(t@ =~= Map::<(AccountId, u64), Offer>::empty());
        }
        t
    }

    /// Index of the record for `(maker, trade_id)`, if one exists.
    fn find(&self, maker: AccountId, trade_id: u64) -> (r: Option<usize>)
        ensures
            match r {
                Some(i) => i < self.items.len() && self.items@[i as int].maker == maker
                    && self.items@[i as int].trade_id == trade_id && forall|j: int|
                    0 <= j < i ==> !(self.items@[j].maker == maker && self.items@[j].trade_id
                        == trade_id),
                None => forall|j: int|
                    0 <= j < self.items.len() ==> !(self.items@[j].maker == maker
                        && self.items@[j].trade_id == trade_id),
            },
    {
        let mut i: usize = 0;
        while i < self.items.len()
            invariant
                i <= self.items.len(),
                forall|j: int|
                    0 <= j < i ==> !(self.items@[j].maker == maker && self.items@[j].trade_id
                        == trade_id),
            decreases self.items.len() - i,
        {
            if self.items[i].maker == maker && self.items[i].trade_id == trade_id {
                return Some(i);
            }
            i = i + 1;
        }
        None
    }

    /// The record stored under `(maker, trade_id)`, if any.
    pub fn get(&self, maker: AccountId, trade_id: u64) -> (r: Option<Offer>)
        ensures
            match r {
                Some(o) => self@.contains_key((maker, trade_id)) && self@[(maker, trade_id)] == o
                    && o.maker == maker && o.trade_id == trade_id,
                None => !self@.contains_key((maker, trade_id)),
            },
    {
        match self.find(maker, trade_id) {
            Some(i) => {
                proof {
                    lemma_intra_lookup_at(self.items@, i as int, maker, trade_id);
                }
                Some(self.items[i])
            },
            None => {
                proof {
                    lemma_intra_lookup_absent(self.items@, maker, trade_id);
                }
                None
            },
        }
    }

    /// Store a record under its fresh key.
    pub(crate) fn insert_new(&mut self, o: Offer)
        requires
            !old(self)@.contains_key((o.maker, o.trade_id)),
        ensures
            final(self)@ == old(self)@.insert((o.maker, o.trade_id), o),
    {
        let ghost items0 = self.items@;
        self.items.push(o);
        proof {
            let ghost m = old(self)@.insert((o.maker, o.trade_id), o);
            assert forall|j: int| 0 <= j < items0.len() implies !(items0[j].maker == o.maker
                && items0[j].trade_id == o.trade_id) by {
                if items0[j].maker == o.maker && items0[j].trade_id == o.trade_id {
                    lemma_intra_lookup_at_exists(items0, j, o.maker, o.trade_id);
                }
            }
            lemma_intra_lookup_at(self.items@, items0.len() as int, o.maker, o.trade_id);
            assert forall|k: (AccountId, u64)| #[trigger] m.contains_key(k) implies self@
                .contains_key(k) && self@[k] == m[k] by {
                if k != (o.maker, o.trade_id) {
                    lemma_intra_lookup_push_other(items0, o, k.0, k.1);
                }
            }
            assert forall|k: (AccountId, u64)| #[trigger] self@.contains_key(k) implies m
                .contains_key(k) by {
                if k != (o.maker, o.trade_id) {
                    lemma_intra_lookup_push_other(items0, o, k.0, k.1);
                }
            }
            assert(self@ =~= m);
        }
    }

    /// Replace the record stored under its own key.
    pub(crate) fn update_at(&mut self, o: Offer)
        requires
            old(self)@.contains_key((o.maker, o.trade_id)),
        ensures
            final(self)@ == old(self)@.insert((o.maker, o.trade_id), o),
    {
        let ghost items0 = self.items@;
        let r = self.find(o.maker, o.trade_id);
        match r {
            Some(i) => {
                self.items.set(i, o);
                proof {
                    let ghost m = old(self)@.insert((o.maker, o.trade_id), o);
                    lemma_intra_lookup_at(self.items@, i as int, o.maker, o.trade_id);
                    assert forall|k: (AccountId, u64)| #[trigger] m.contains_key(k) implies self@
                        .contains_key(k) && self@[k] == m[k] by {
                        if k != (o.maker, o.trade_id) {
                            lemma_intra_lookup_update_other(items0, i as int, o, k.0, k.1);
                        }
                    }
                    assert forall|k: (AccountId, u64)| #[trigger] self@.contains_key(k) implies m
                        .contains_key(k) by {
                        if k != (o.maker, o.trade_id) {
                            lemma_intra_lookup_update_other(items0, i as int, o, k.0, k.1);
                        }
                    }
                    assert(self@ =~= m);
                }
            },
            None => {
                proof {
                    lemma_intra_lookup_absent(items0, o.maker, o.trade_id);
                    assert(false);
                }
            },
        }
    }
}

/// If some index holds a matching record, the lookup succeeds.
proof fn lemma_intra_lookup_at_exists(s: Seq<Offer>, i: int, maker: AccountId, trade_id: u64)
    requires
        0 <= i < s.len(),
        s[i].maker == maker,
        s[i].trade_id == trade_id,
    ensures
        intra_lookup(s, maker, trade_id) is Some,
    decreases i,
{
    if !(s[0].maker == maker && s[0].trade_id == trade_id) {
        assert(s.drop_first()[i - 1] == s[i]);
        lemma_intra_lookup_at_exists(s.drop_first(), i - 1, maker, trade_id);
    }
}

/// First record in `s` for `trade_id`, if any.
pub open spec fn foreign_lookup(s: Seq<InterchainOffer>, trade_id: u64) -> Option<InterchainOffer>
    decreases s.len(),
{
    if s.len() == 0 {
        None
    } else if s[0].trade_id == trade_id {
        Some(s[0])
    } else {
        foreign_lookup(s.drop_first(), trade_id)
    }
}

/// The foreign-origin offer records.
pub struct InterchainOfferTable {
    items: Vec<InterchainOffer>,
}

impl View for InterchainOfferTable {
    type V = Map<u64, InterchainOffer>;

    closed spec fn view(&self) -> Map<u64, InterchainOffer> {
        Map::new(
            |t: u64| foreign_lookup(self.items@, t) is Some,
            |t: u64| foreign_lookup(self.items@, t).unwrap(),
        )
    }
}

proof fn lemma_foreign_lookup_at(s: Seq<InterchainOffer>, i: int, trade_id: u64)
    requires
        0 <= i < s.len(),
        s[i].trade_id == trade_id,
        forall|j: int| 0 <= j < i ==> s[j].trade_id != trade_id,
    ensures
        foreign_lookup(s, trade_id) == Some(s[i]),
    decreases i,
{
    if i > 0 {
        assert forall|j: int| 0 <= j < i - 1 implies s.drop_first()[j].trade_id != trade_id by {
            assert(s.drop_first()[j] == s[j + 1]);
        }
        assert(s.drop_first()[i - 1] == s[i]);
        lemma_foreign_lookup_at(s.drop_first(), i - 1, trade_id);
    }
}

proof fn lemma_foreign_lookup_absent(s: Seq<InterchainOffer>, trade_id: u64)
    requires
        forall|j: int| 0 <= j < s.len() ==> s[j].trade_id != trade_id,
    ensures
        foreign_lookup(s, trade_id) is None,
    decreases s.len(),
{
    if s.len() > 0 {
        assert forall|j: int| 0 <= j < s.drop_first().len() implies s.drop_first()[j].trade_id
            != trade_id by {
            assert(s.drop_first()[j] == s[j + 1]);
        }
        lemma_foreign_lookup_absent(s.drop_first(), trade_id);
    }
}

proof fn lemma_foreign_lookup_push_other(s: Seq<InterchainOffer>, e: InterchainOffer, trade_id: u64)
    requires
        e.trade_id != trade_id,
    ensures
        foreign_lookup(s.push(e), trade_id) == foreign_lookup(s, trade_id),
    decreases s.len(),
{
    if s.len() == 0 {
        assert(s.push(e)[0] == e);
        lemma_foreign_lookup_absent(s.push(e), trade_id);
    } else {
        assert(s.push(e)[0] == s[0]);
        if s[0].trade_id != trade_id {
            lemma_foreign_lookup_push_other(s.drop_first(), e, trade_id);
            assert(s.push(e).drop_first() =~= s.drop_first().push(e));
            assert(foreign_lookup(s.push(e), trade_id) == foreign_lookup(
                s.push(e).drop_first(),
                trade_id,
            ));
            assert(foreign_lookup(s, trade_id) == foreign_lookup(s.drop_first(), trade_id));
        }
    }
}

proof fn lemma_foreign_lookup_update_other(
    s: Seq<InterchainOffer>,
    i: int,
    e: InterchainOffer,
    trade_id: u64,
)
    requires
        0 <= i < s.len(),
        s[i].trade_id != trade_id,
        e.trade_id != trade_id,
    ensures
        foreign_lookup(s.update(i, e), trade_id) == foreign_lookup(s, trade_id),
    decreases i,
{
    let t = s.update(i, e);
    if i == 0 {
        assert(t.drop_first() =~= s.drop_first());
    } else {
        assert(t[0] == s[0]);
        if s[0].trade_id != trade_id {
            assert(t.drop_first() =~= s.drop_first().update(i - 1, e));
            lemma_foreign_lookup_update_other(s.drop_first(), i - 1, e, trade_id);
        }
    }
}

/// If some index holds a matching record, the lookup succeeds.
proof fn lemma_foreign_lookup_at_exists(s: Seq<InterchainOffer>, i: int, trade_id: u64)
    requires
        0 <= i < s.len(),
        s[i].trade_id == trade_id,
    ensures
        foreign_lookup(s, trade_id) is Some,
    decreases i,
{
    if s[0].trade_id != trade_id {
        assert(s.drop_first()[i - 1] == s[i]);
        lemma_foreign_lookup_at_exists(s.drop_first(), i - 1, trade_id);
    }
}

impl InterchainOfferTable {
    /// An empty table.
    pub fn new() -> (t: InterchainOfferTable)
        ensures
            t@ == Map::<u64, InterchainOffer>::empty(),
    {
        let t = InterchainOfferTable { items: Vec::new() };
        proof {
            assert(t@ =~= Map::<u64, InterchainOffer>::empty());
        }
        t
    }

    /// Index of the record for `trade_id`, if one exists.
    fn find(&self, trade_id: u64) -> (r: Option<usize>)
        ensures
            match r {
                Some(i) => i < self.items.len() && self.items@[i as int].trade_id == trade_id
                    && forall|j: int| 0 <= j < i ==> self.items@[j].trade_id != trade_id,
                None => forall|j: int|
                    0 <= j < self.items.len() ==> self.items@[j].trade_id != trade_id,
            },
    {
        let mut i: usize = 0;
        while i < self.items.len()
            invariant
                i <= self.items.len(),
                forall|j: int| 0 <= j < i ==> self.items@[j].trade_id != trade_id,
            decreases self.items.len() - i,
        {
            if self.items[i].trade_id == trade_id {
                return Some(i);
            }
            i = i + 1;
        }
        None
    }

    /// The record stored under `trade_id`, if any.
    pub fn get(&self, trade_id: u64) -> (r: Option<InterchainOffer>)
        ensures
            match r {
                Some(o) => self@.contains_key(trade_id) && self@[trade_id] == o && o.trade_id
                    == trade_id,
                None => !self@.contains_key(trade_id),
            },
    {
        match self.find(trade_id) {
            Some(i) => {
                proof {
                    lemma_foreign_lookup_at(self.items@, i as int, trade_id);
                }
                Some(self.items[i])
            },
            None => {
                proof {
                    lemma_foreign_lookup_absent(self.items@, trade_id);
                }
                None
            },
        }
    }

    /// Store a record under its fresh key.
    pub(crate) fn insert_new(&mut self, o: InterchainOffer)
        requires
            !old(self)@.contains_key(o.trade_id),
        ensures
            final(self)@ == old(self)@.insert(o.trade_id, o),
    {
        let ghost items0 = self.items@;
        self.items.push(o);
        proof {
            let ghost m = old(self)@.insert(o.trade_id, o);
            assert forall|j: int| 0 <= j < items0.len() implies items0[j].trade_id
                != o.trade_id by {
                if items0[j].trade_id == o.trade_id {
                    lemma_foreign_lookup_at_exists(items0, j, o.trade_id);
                }
            }
            lemma_foreign_lookup_at(self.items@, items0.len() as int, o.trade_id);
            assert forall|k: u64| #[trigger] m.contains_key(k) implies self@.contains_key(k)
                && self@[k] == m[k] by {
                if k != o.trade_id {
                    lemma_foreign_lookup_push_other(items0, o, k);
                }
            }
            assert forall|k: u64| #[trigger] self@.contains_key(k) implies m.contains_key(k) by {
                if k != o.trade_id {
                    lemma_foreign_lookup_push_other(items0, o, k);
                }
            }
            assert(self@ =~= m);
        }
    }

    /// Replace the record stored under its own key.
    pub(crate) fn update_at(&mut self, o: InterchainOffer)
        requires
            old(self)@.contains_key(o.trade_id),
        ensures
            final(self)@ == old(self)@.insert(o.trade_id, o),
    {
        let ghost items0 = self.items@;
        let r = self.find(o.trade_id);
        match r {
            Some(i) => {
                self.items.set(i, o);
                proof {
                    let ghost m = old(self)@.insert(o.trade_id, o);
                    lemma_foreign_lookup_at(self.items@, i as int, o.trade_id);
                    assert forall|k: u64| #[trigger] m.contains_key(k) implies self@.contains_key(k)
                        && self@[k] == m[k] by {
                        if k != o.trade_id {
                            lemma_foreign_lookup_update_other(items0, i as int, o, k);
                        }
                    }
                    assert forall|k: u64| #[trigger] self@.contains_key(k) implies m.contains_key(
                        k,
                    ) by {
                        if k != o.trade_id {
                            lemma_foreign_lookup_update_other(items0, i as int, o, k);
                        }
                    }
                    assert(self@ =~= m);
                }
            },
            None => {
                proof {
                    lemma_foreign_lookup_absent(items0, o.trade_id);
                    assert(false);
                }
            },
        }
    }
}

/// First record in `s` for `trade_id`, if any.
pub open spec fn local_lookup(s: Seq<InterchainOriginSolOffer>, trade_id: u64) -> Option<
    InterchainOriginSolOffer,
>
    decreases s.len(),
{
    if s.len() == 0 {
        None
    } else if s[0].trade_id == trade_id {
        Some(s[0])
    } else {
        local_lookup(s.drop_first(), trade_id)
    }
}

/// The local-origin offer records.
pub struct InterchainOriginSolOfferTable {
    items: Vec<InterchainOriginSolOffer>,
}

impl View for InterchainOriginSolOfferTable {
    type V = Map<u64, InterchainOriginSolOffer>;

    closed spec fn view(&self) -> Map<u64, InterchainOriginSolOffer> {
        Map::new(
            |t: u64| local_lookup(self.items@, t) is Some,
            |t: u64| local_lookup(self.items@, t).unwrap(),
        )
    }
}

proof fn lemma_local_lookup_at(s: Seq<InterchainOriginSolOffer>, i: int, trade_id: u64)
    requires
        0 <= i < s.len(),
        s[i].trade_id == trade_id,
        forall|j: int| 0 <= j < i ==> s[j].trade_id != trade_id,
    ensures
        local_lookup(s, trade_id) == Some(s[i]),
    decreases i,
{
    if i > 0 {
        assert forall|j: int| 0 <= j < i - 1 implies s.drop_first()[j].trade_id != trade_id by {
            assert(s.drop_first()[j] == s[j + 1]);
        }
        assert(s.drop_first()[i - 1] == s[i]);
        lemma_local_lookup_at(s.drop_first(), i - 1, trade_id);
    }
}

proof fn lemma_local_lookup_absent(s: Seq<InterchainOriginSolOffer>, trade_id: u64)
    requires
        forall|j: int| 0 <= j < s.len() ==> s[j].trade_id != trade_id,
    ensures
        local_lookup(s, trade_id) is None,
    decreases s.len(),
{
    if s.len() > 0 {
        assert forall|j: int| 0 <= j < s.drop_first().len() implies s.drop_first()[j].trade_id
            != trade_id by {
            assert(s.drop_first()[j] == s[j + 1]);
        }
        lemma_local_lookup_absent(s.drop_first(), trade_id);
    }
}

proof fn lemma_local_lookup_push_other(
    s: Seq<InterchainOriginSolOffer>,
    e: InterchainOriginSolOffer,
    trade_id: u64,
)
    requires
        e.trade_id != trade_id,
    ensures
        local_lookup(s.push(e), trade_id) == local_lookup(s, trade_id),
    decreases s.len(),
{
    if s.len() == 0 {
        assert(s.push(e)[0] == e);
        lemma_local_lookup_absent(s.push(e), trade_id);
    } else {
        assert(s.push(e)[0] == s[0]);
        if s[0].trade_id != trade_id {
            lemma_local_lookup_push_other(s.drop_first(), e, trade_id);
            assert(s.push(e).drop_first() =~= s.drop_first().push(e));
            assert(local_lookup(s.push(e), trade_id) == local_lookup(
                s.push(e).drop_first(),
                trade_id,
            ));
            assert(local_lookup(s, trade_id) == local_lookup(s.drop_first(), trade_id));
        }
    }
}

proof fn lemma_local_lookup_update_other(
    s: Seq<InterchainOriginSolOffer>,
    i: int,
    e: InterchainOriginSolOffer,
    trade_id: u64,
)
    requires
        0 <= i < s.len(),
        s[i].trade_id != trade_id,
        e.trade_id != trade_id,
    ensures
        local_lookup(s.update(i, e), trade_id) == local_lookup(s, trade_id),
    decreases i,
{
    let t = s.update(i, e);
    if i == 0 {
        assert(t.drop_first() =~= s.drop_first());
    } else {
        assert(t[0] == s[0]);
        if s[0].trade_id != trade_id {
            assert(t.drop_first() =~= s.drop_first().update(i - 1, e));
            lemma_local_lookup_update_other(s.drop_first(), i - 1, e, trade_id);
        }
    }
}

/// If some index holds a matching record, the lookup succeeds.
proof fn lemma_local_lookup_at_exists(s: Seq<InterchainOriginSolOffer>, i: int, trade_id: u64)
    requires
        0 <= i < s.len(),
        s[i].trade_id == trade_id,
    ensures
        local_lookup(s, trade_id) is Some,
    decreases i,
{
    if s[0].trade_id != trade_id {
        assert(s.drop_first()[i - 1] == s[i]);
        lemma_local_lookup_at_exists(s.drop_first(), i - 1, trade_id);
    }
}

impl InterchainOriginSolOfferTable {
    /// An empty table.
    pub fn new() -> (t: InterchainOriginSolOfferTable)
        ensures
            t@ == Map::<u64, InterchainOriginSolOffer>::empty(),
    {
        let t = InterchainOriginSolOfferTable { items: Vec::new() };
        proof {
            assert(t@ =~= Map::<u64, InterchainOriginSolOffer>::empty());
        }
        t
    }

    /// Index of the record for `trade_id`, if one exists.
    fn find(&self, trade_id: u64) -> (r: Option<usize>)
        ensures
            match r {
                Some(i) => i < self.items.len() && self.items@[i as int].trade_id == trade_id
                    && forall|j: int| 0 <= j < i ==> self.items@[j].trade_id != trade_id,
                None => forall|j: int|
                    0 <= j < self.items.len() ==> self.items@[j].trade_id != trade_id,
            },
    {
        let mut i: usize = 0;
        while i < self.items.len()
            invariant
                i <= self.items.len(),
                forall|j: int| 0 <= j < i ==> self.items@[j].trade_id != trade_id,
            decreases self.items.len() - i,
        {
            if self.items[i].trade_id == trade_id {
                return Some(i);
            }
            i = i + 1;
        }
        None
    }

    /// The record stored under `trade_id`, if any.
    pub fn get(&self, trade_id: u64) -> (r: Option<InterchainOriginSolOffer>)
        ensures
            match r {
                Some(o) => self@.contains_key(trade_id) && self@[trade_id] == o && o.trade_id
                    == trade_id,
                None => !self@.contains_key(trade_id),
            },
    {
        match self.find(trade_id) {
            Some(i) => {
                proof {
                    lemma_local_lookup_at(self.items@, i as int, trade_id);
                }
                Some(self.items[i])
            },
            None => {
                proof {
                    lemma_local_lookup_absent(self.items@, trade_id);
                }
                None
            },
        }
    }

    /// Store a record under its fresh key.
    pub(crate) fn insert_new(&mut self, o: InterchainOriginSolOffer)
        requires
            !old(self)@.contains_key(o.trade_id),
        ensures
            final(self)@ == old(self)@.insert(o.trade_id, o),
    {
        let ghost items0 = self.items@;
        self.items.push(o);
        proof {
            let ghost m = old(self)@.insert(o.trade_id, o);
            assert forall|j: int| 0 <= j < items0.len() implies items0[j].trade_id
                != o.trade_id by {
                if items0[j].trade_id == o.trade_id {
                    lemma_local_lookup_at_exists(items0, j, o.trade_id);
                }
            }
            lemma_local_lookup_at(self.items@, items0.len() as int, o.trade_id);
            assert forall|k: u64| #[trigger] m.contains_key(k) implies self@.contains_key(k)
                && self@[k] == m[k] by {
                if k != o.trade_id {
                    lemma_local_lookup_push_other(items0, o, k);
                }
            }
            assert forall|k: u64| #[trigger] self@.contains_key(k) implies m.contains_key(k) by {
                if k != o.trade_id {
                    lemma_local_lookup_push_other(items0, o, k);
                }
            }
            assert(self@ =~= m);
        }
    }

    /// Replace the record stored under its own key.
    pub(crate) fn update_at(&mut self, o: InterchainOriginSolOffer)
        requires
            old(self)@.contains_key(o.trade_id),
        ensures
            final(self)@ == old(self)@.insert(o.trade_id, o),
    {
        let ghost items0 = self.items@;
        let r = self.find(o.trade_id);
        match r {
            Some(i) => {
                self.items.set(i, o);
                proof {
                    let ghost m = old(self)@.insert(o.trade_id, o);
                    lemma_local_lookup_at(self.items@, i as int, o.trade_id);
                    assert forall|k: u64| #[trigger] m.contains_key(k) implies self@.contains_key(k)
                        && self@[k] == m[k] by {
                        if k != o.trade_id {
                            lemma_local_lookup_update_other(items0, i as int, o, k);
                        }
                    }
                    assert forall|k: u64| #[trigger] self@.contains_key(k) implies m.contains_key(
                        k,
                    ) by {
                        if k != o.trade_id {
                            lemma_local_lookup_update_other(items0, i as int, o, k);
                        }
                    }
                    assert(self@ =~= m);
                }
            },
            None => {
                proof {
                    lemma_local_lookup_absent(items0, o.trade_id);
                    assert(false);
                }
            },
        }
    }
}

} // verus!
