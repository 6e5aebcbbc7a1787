//! In-memory order book: per side, a map from price to resting quantity.
use std::collections::BTreeMap;
use vstd::prelude::*;

verus! {

broadcast use vstd::std_specs::btree::group_btree_axioms, vstd::laws_cmp::group_laws_cmp;

/// One side of the book.
#[derive(Clone, Copy, Debug, PartialEq, Eq, Structural)]
pub enum Side {
    Bid,
    Ask,
}

/// Total resting quantity at one price. Both are fixed-point amounts (see
/// `decimal`). In an update a quantity of zero means "remove this price".
#[derive(Clone, Copy, Debug, PartialEq, Eq, Structural)]
pub struct PriceLevel {
    pub price: u128,
    pub quantity: u128,
}

/// The abstract book: one price-to-quantity map per side.
pub struct BookModel {
    pub bids: Map<u128, u128>,
    pub asks: Map<u128, u128>,
}

/// The effect of one level update on a side.
pub open spec fn level_applied(m: Map<u128, u128>, price: u128, quantity: u128) -> Map<u128, u128> {
    if quantity == 0 {
        m.remove(price)
    } else {
        m.insert(price, quantity)
    }
}

/// The effect of a run of level updates, applied in order, on a side.
pub open spec fn levels_applied(m: Map<u128, u128>, levels: Seq<PriceLevel>) -> Map<u128, u128>
    decreases levels.len(),
{
    if levels.len() == 0 {
        m
    } else {
        let last = levels.last();
        level_applied(levels_applied(m, levels.drop_last()), last.price, last.quantity)
    }
}

/// A side holds no zero quantity.
pub open spec fn side_wf(m: Map<u128, u128>) -> bool {
    forall|p: u128| m.contains_key(p) ==> #[trigger] m[p] > 0
}

pub open spec fn is_highest(m: Map<u128, u128>, p: u128) -> bool {
    m.contains_key(p) && forall|q: u128| m.contains_key(q) ==> q <= p
}

pub open spec fn is_lowest(m: Map<u128, u128>, p: u128) -> bool {
    m.contains_key(p) && forall|q: u128| m.contains_key(q) ==> p <= q
}

/// The best price of a side: the highest bid, the lowest ask.
pub open spec fn best_price(m: Map<u128, u128>, side: Side) -> Option<u128> {
    match side {
        Side::Bid => if exists|p: u128| is_highest(m, p) {
            Some(choose|p: u128| is_highest(m, p))
        } else {
            None
        },
        Side::Ask => if exists|p: u128| is_lowest(m, p) {
            Some(choose|p: u128| is_lowest(m, p))
        } else {
            None
        },
    }
}

/// The best level of a side, with its quantity.
pub open spec fn best_level(m: Map<u128, u128>, side: Side) -> Option<PriceLevel> {
    match best_price(m, side) {
        Some(p) => Some(PriceLevel { price: p, quantity: m[p] }),
        None => None,
    }
}

/// Both sides hold a level and the best bid is at or above the best ask.
pub open spec fn crossed(b: BookModel) -> bool {
    match (best_price(b.bids, Side::Bid), best_price(b.asks, Side::Ask)) {
        (Some(bid), Some(ask)) => bid >= ask,
        _ => false,
    }
}

impl BookModel {
    pub open spec fn side(self, side: Side) -> Map<u128, u128> {
        match side {
            Side::Bid => self.bids,
            Side::Ask => self.asks,
        }
    }

    pub open spec fn with_side(self, side: Side, m: Map<u128, u128>) -> BookModel {
        match side {
            Side::Bid => BookModel { bids: m, asks: self.asks },
            Side::Ask => BookModel { bids: self.bids, asks: m },
        }
    }

    pub open spec fn wf(self) -> bool {
        side_wf(self.bids) && side_wf(self.asks)
    }
}

/// Relies on BTreeMap::first_key_value: the entry with the least key, none
/// when the map is empty.
#[verifier::external_body]
fn least_entry(m: &BTreeMap<u128, u128>) -> (r: Option<(u128, u128)>)
    ensures
        r is None ==> forall|k: u128| !m@.contains_key(k),
        r matches Some(e) ==> is_lowest(m@, e.0) && m@[e.0] == e.1,
{
    m.first_key_value().map(|(k, v)| (*k, *v))
}

/// Relies on BTreeMap::last_key_value: the entry with the greatest key, none
/// when the map is empty.
#[verifier::external_body]
fn greatest_entry(m: &BTreeMap<u128, u128>) -> (r: Option<(u128, u128)>)
    ensures
        r is None ==> forall|k: u128| !m@.contains_key(k),
        r matches Some(e) ==> is_highest(m@, e.0) && m@[e.0] == e.1,
{
    m.last_key_value().map(|(k, v)| (*k, *v))
}

/// Relies on BTreeMap::iter: every entry of the map, once, in increasing key
/// order.
#[verifier::external_body]
fn entries_ascending(m: &BTreeMap<u128, u128>) -> (r: Vec<PriceLevel>)
    ensures
        forall|i: int| 0 <= i < r@.len() ==> m@.contains_key(#[trigger] r@[i].price) && m@[r@[i].price] == r@[i].quantity,
        forall|i: int, j: int| 0 <= i < j < r@.len() ==> r@[i].price < r@[j].price,
        forall|k: u128| m@.contains_key(k) ==> exists|i: int| 0 <= i < r@.len() && #[trigger] r@[i].price == k,
{
    m.iter().map(|(k, v)| PriceLevel { price: *k, quantity: *v }).collect()
}

/// `a` ranks before `b` on `side`: a higher bid, a lower ask.
pub open spec fn better(side: Side, a: u128, b: u128) -> bool {
    match side {
        Side::Bid => a > b,
        Side::Ask => a < b,
    }
}

/// `r` lists the best levels of `m` for `side`, best first, at most `n` of
/// them: each is a level of `m`, they rank strictly in order, and a price of
/// `m` left out ranks after all of them; fewer than `n` only when `m` has no
/// more.
pub open spec fn is_top_levels(m: Map<u128, u128>, side: Side, n: nat, r: Seq<PriceLevel>) -> bool {
    &&& r.len() <= n
    &&& forall|i: int| 0 <= i < r.len() ==> m.contains_key(#[trigger] r[i].price) && m[r[i].price] == r[i].quantity
    &&& forall|i: int, j: int| 0 <= i < j < r.len() ==> better(side, r[i].price, r[j].price)
    &&& forall|k: u128|
        m.contains_key(k) && !(exists|i: int| 0 <= i < r.len() && #[trigger] r[i].price == k) ==> r.len() == n
            && forall|i: int| 0 <= i < r.len() ==> better(side, #[trigger] r[i].price, k)
}

/// Bids and asks, each keyed by price, holding no zero quantity.
pub struct PriceLevelBook {
    bids: BTreeMap<u128, u128>,
    asks: BTreeMap<u128, u128>,
}

impl View for PriceLevelBook {
    type V = BookModel;

    closed spec fn view(&self) -> BookModel {
        BookModel { bids: self.bids@, asks: self.asks@ }
    }
}

impl PriceLevelBook {
    pub open spec fn wf(&self) -> bool {
        self@.wf()
    }

    /// An empty book.
    pub fn new() -> (r: PriceLevelBook)
        ensures
            r.wf(),
            r@.bids == Map::<u128, u128>::empty(),
            r@.asks == Map::<u128, u128>::empty(),
    {
        PriceLevelBook { bids: BTreeMap::new(), asks: BTreeMap::new() }
    }

    /// Removes `price` from `side` when `quantity` is zero, else sets its
    /// quantity.
    pub fn apply_level(&mut self, side: Side, price: u128, quantity: u128)
        requires
            old(self).wf(),
        ensures
            final(self).wf(),
            final(self)@ == old(self)@.with_side(side, level_applied(old(self)@.side(side), price, quantity)),
    {
        let map = match side {
            Side::Bid => &mut self.bids,
            Side::Ask => &mut self.asks,
        };
        if quantity == 0 {
            map.remove(&price);
        } else {
            map.insert(price, quantity);
        }
    }

    /// Applies `levels` to `side` in order.
    pub fn apply_levels(&mut self, side: Side, levels: &Vec<PriceLevel>)
        requires
            old(self).wf(),
        ensures
            final(self).wf(),
            final(self)@ == old(self)@.with_side(side, levels_applied(old(self)@.side(side), levels@)),
    {
        let mut i: usize = 0;
        while i < levels.len()
            invariant
                i <= levels@.len(),
                self.wf(),
                self@ == old(self)@.with_side(side, levels_applied(old(self)@.side(side), levels@.subrange(0, i as int))),
            decreases levels@.len() - i,
        {
            proof {
                assert(levels@.subrange(0, i + 1).drop_last() =~= levels@.subrange(0, i as int));
            }
            self.apply_level(side, levels[i].price, levels[i].quantity);
            i = i + 1;
        }
        proof {
            assert(levels@.subrange(0, i as int) =~= levels@);
        }
    }

    /// Discards every level of `side` and applies `levels` to it: the side
    /// then holds the non-zero levels given.
    pub fn replace_side(&mut self, side: Side, levels: &Vec<PriceLevel>)
        requires
            old(self).wf(),
        ensures
            final(self).wf(),
            final(self)@ == old(self)@.with_side(side, levels_applied(Map::empty(), levels@)),
    {
        match side {
            Side::Bid => self.bids.clear(),
            Side::Ask => self.asks.clear(),
        }
        self.apply_levels(side, levels);
    }

    /// The best level of `side`: the highest bid or the lowest ask.
    pub fn best(&self, side: Side) -> (r: Option<PriceLevel>)
        ensures
            r == best_level(self@.side(side), side),
    {
        let ghost m = self@.side(side);
        let entry = match side {
            Side::Bid => greatest_entry(&self.bids),
            Side::Ask => least_entry(&self.asks),
        };
        match entry {
            Some(e) => {
                proof {
                    match side {
                        Side::Bid => {
                            let c = choose|p: u128| is_highest(m, p);
                            assert(is_highest(m, c));
                        },
                        Side::Ask => {
                            let c = choose|p: u128| is_lowest(m, p);
                            assert(is_lowest(m, c));
                        },
                    }
                }
                Some(PriceLevel { price: e.0, quantity: e.1 })
            },
            None => None,
        }
    }

    /// Whether both sides hold a level and the best bid is at or above the
    /// best ask.
    pub fn is_crossed(&self) -> (r: bool)
        ensures
            r == crossed(self@),
    {
        match (self.best(Side::Bid), self.best(Side::Ask)) {
            (Some(bid), Some(ask)) => bid.price >= ask.price,
            _ => false,
        }
    }

    /// The best `n` levels of `side`, best first.
    pub fn top(&self, side: Side, n: usize) -> (r: Vec<PriceLevel>)
        ensures
            is_top_levels(self@.side(side), side, n as nat, r@),
    {
        let all = match side {
            Side::Bid => entries_ascending(&self.bids),
            Side::Ask => entries_ascending(&self.asks),
        };
        let ghost m = self@.side(side);
        let len = all.len();
        let count = if n < len {
            n
        } else {
            len
        };
        let mut out: Vec<PriceLevel> = Vec::new();
        let mut i: usize = 0;
        while i < count
            invariant
                count <= n,
                count <= len,
                len == all@.len(),
                i <= count,
                out@.len() == i,
                forall|j: int| 0 <= j < i ==> #[trigger] out@[j] == all@[rank(side, len as int, j)],
            decreases count - i,
        {
            let idx = match side {
                Side::Bid => len - 1 - i,
                Side::Ask => i,
            };
            out.push(all[idx]);
            i = i + 1;
        }
        proof {
            assert forall|k: u128|
                m.contains_key(k) && !(exists|j: int| 0 <= j < out@.len() && #[trigger] out@[j].price == k) implies out@.len()
                == n && forall|j: int| 0 <= j < out@.len() ==> better(side, #[trigger] out@[j].price, k) by {
                let p = choose|p: int| 0 <= p < all@.len() && #[trigger] all@[p].price == k;
                let q = unrank(side, len as int, p);
                if q < count {
                    assert(out@[q].price == k);
                }
                assert forall|j: int| 0 <= j < out@.len() implies better(side, #[trigger] out@[j].price, k) by {
                    assert(out@[j] == all@[rank(side, len as int, j)]);
                }
            }
        }
        out
    }

    /// The number of levels on `side`.
    pub fn depth(&self, side: Side) -> (r: usize)
        ensures
            r == self@.side(side).len(),
    {
        match side {
            Side::Bid => self.bids.len(),
            Side::Ask => self.asks.len(),
        }
    }
}

/// The position in the ascending list of `len` levels of the `j`th best level.
pub open spec fn rank(side: Side, len: int, j: int) -> int {
    match side {
        Side::Bid => len - 1 - j,
        Side::Ask => j,
    }
}

/// The inverse of `rank`.
pub open spec fn unrank(side: Side, len: int, p: int) -> int {
    match side {
        Side::Bid => len - 1 - p,
        Side::Ask => p,
    }
}

/// A zero-quantity update of an absent price leaves the book as it was; of a
/// present price, removes that price alone; an update with a positive
/// quantity inserts or overwrites the price with that quantity.
pub proof fn lemma_apply_level_laws(b: BookModel, side: Side, price: u128, quantity: u128)
    ensures
        ({
            let m = b.side(side);
            let after = b.with_side(side, level_applied(m, price, quantity));
            &&& quantity == 0 && !m.contains_key(price) ==> after == b
            &&& quantity == 0 && m.contains_key(price) ==> !after.side(side).contains_key(price)
                && after.side(side) == m.remove(price)
            &&& quantity > 0 ==> after.side(side).contains_key(price) && after.side(side)[price] == quantity
                && after.side(side) == m.insert(price, quantity)
            &&& after.side(opposite(side)) == b.side(opposite(side))
        }),
{
    let m = b.side(side);
    if quantity == 0 && !m.contains_key(price) {
        assert(m.remove(price) =~= m);
    }
}

/// The other side of the book.
pub open spec fn opposite(side: Side) -> Side {
    match side {
        Side::Bid => Side::Ask,
        Side::Ask => Side::Bid,
    }
}

/// Applying two runs of levels one after the other is applying their
/// concatenation.
pub proof fn lemma_levels_applied_concat(m: Map<u128, u128>, a: Seq<PriceLevel>, b: Seq<PriceLevel>)
    ensures
        levels_applied(levels_applied(m, a), b) == levels_applied(m, a + b),
    decreases b.len(),
{
    if b.len() == 0 {
        assert(a + b =~= a);
    } else {
        assert((a + b).drop_last() =~= a + b.drop_last());
        assert((a + b).last() == b.last());
        lemma_levels_applied_concat(m, a, b.drop_last());
    }
}

} // verus!
