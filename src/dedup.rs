//! Trade de-duplication: a bounded first-in-first-out cache of trade
//! identities, and the admission rule of the trade path.
use std::collections::hash_map::DefaultHasher;
use std::collections::{HashSet, VecDeque};
use std::hash::Hasher;
use vstd::prelude::*;
use vstd::std_specs::hash::DefaultHasherAdditionalSpecFns;

verus! {

broadcast use vstd::std_specs::hash::group_hash_axioms;

/// The aggressor side of a trade.
#[derive(Clone, Copy, Debug, PartialEq, Eq, Structural)]
pub enum TradeSide {
    Buy,
    Sell,
}

/// One trade. Price and quantity are fixed-point amounts (see `decimal`);
/// timestamps are milliseconds since the Unix epoch.
#[derive(Clone, Copy, Debug, PartialEq, Eq, Structural)]
pub struct TradeRecord {
    pub exchange_id: Option<u64>,
    pub price: u128,
    pub quantity: u128,
    pub side: Option<TradeSide>,
    pub exchange_timestamp: i64,
    pub receipt_timestamp: i64,
}

/// The `n` low bytes of `x`, least significant first.
pub open spec fn le_bytes(x: nat, n: nat) -> Seq<u8>
    decreases n,
{
    if n == 0 {
        Seq::empty()
    } else {
        seq![(x % 256) as u8] + le_bytes(x / 256, (n - 1) as nat)
    }
}

/// The 64-bit two's complement encoding of `x`.
pub open spec fn twos_complement(x: i64) -> nat {
    if x >= 0 {
        x as nat
    } else {
        (x + 0x1_0000_0000_0000_0000) as nat
    }
}

/// The byte that stands for a trade's side in its fallback identity.
pub open spec fn side_byte(side: Option<TradeSide>) -> u8 {
    match side {
        Some(TradeSide::Sell) => 1,
        _ => 0,
    }
}

/// The fields that identify a trade without an exchange id, as the byte
/// strings fed to the hasher: timestamp, price, quantity, side.
pub open spec fn fallback_fields(t: TradeRecord) -> Seq<Seq<u8>> {
    seq![
        le_bytes(twos_complement(t.exchange_timestamp), 8),
        le_bytes(t.price as nat, 16),
        le_bytes(t.quantity as nat, 16),
        seq![side_byte(t.side)],
    ]
}

/// The identity of a trade: its exchange id where it has one, else the std
/// `DefaultHasher` digest of its timestamp, price, quantity and side.
pub open spec fn identity_of(t: TradeRecord) -> u64 {
    match t.exchange_id {
        Some(id) => id,
        None => DefaultHasher::spec_finish(fallback_fields(t)),
    }
}

/// The `n` low bytes of `x`, least significant first.
fn low_bytes(x: u128, n: usize) -> (r: Vec<u8>)
    ensures
        r@ == le_bytes(x as nat, n as nat),
{
    let mut out: Vec<u8> = Vec::new();
    let mut v = x;
    let mut i: usize = 0;
    while i < n
        invariant
            i <= n,
            out@ + le_bytes(v as nat, (n - i) as nat) == le_bytes(x as nat, n as nat),
        decreases n - i,
    {
        let ghost before = out@;
        out.push((v % 256) as u8);
        proof {
            assert(le_bytes(v as nat, (n - i) as nat) == seq![(v % 256) as u8] + le_bytes(
                (v / 256) as nat,
                (n - i - 1) as nat,
            ));
            assert(out@ + le_bytes((v / 256) as nat, (n - i - 1) as nat) =~= before + le_bytes(
                v as nat,
                (n - i) as nat,
            ));
        }
        v = v / 256;
        i = i + 1;
    }
    assert(out@ + le_bytes(v as nat, 0) =~= out@);
    out
}

/// The fallback identity of a trade: the std `DefaultHasher` digest of its
/// timestamp, price, quantity and side.
pub fn fallback_key(t: &TradeRecord) -> (r: u64)
    ensures
        r == DefaultHasher::spec_finish(fallback_fields(*t)),
{
    let mut h = DefaultHasher::new();
    let ts_bits: u128 = if t.exchange_timestamp >= 0 {
        t.exchange_timestamp as u128
    } else {
        (t.exchange_timestamp as i128 + 0x1_0000_0000_0000_0000i128) as u128
    };
    let ts = low_bytes(ts_bits, 8);
    let price = low_bytes(t.price, 16);
    let quantity = low_bytes(t.quantity, 16);
    let side: Vec<u8> = vec![
        match t.side {
            Some(TradeSide::Sell) => 1u8,
            _ => 0u8,
        },
    ];
    h.write(ts.as_slice());
    h.write(price.as_slice());
    h.write(quantity.as_slice());
    h.write(side.as_slice());
    assert(side@ =~= seq![side_byte(t.side)]);
    assert(h@ =~= fallback_fields(*t));
    h.finish()
}

/// The identity under which a trade is de-duplicated.
pub fn identity_key(t: &TradeRecord) -> (r: u64)
    ensures
        r == identity_of(*t),
{
    match t.exchange_id {
        Some(id) => id,
        None => fallback_key(t),
    }
}

/// The cache's keys after offering `k`: unchanged when `k` is present, else
/// `k` appended and, past `capacity`, the oldest key evicted.
pub open spec fn keys_after_insert(keys: Seq<u64>, capacity: nat, k: u64) -> Seq<u64> {
    if keys.contains(k) {
        keys
    } else if keys.len() + 1 > capacity {
        keys.push(k).drop_first()
    } else {
        keys.push(k)
    }
}

/// A bounded set of keys that evicts in insertion order: once more than
/// `capacity` keys were inserted, each insertion evicts the oldest key.
pub struct DedupCache {
    set: HashSet<u64>,
    order: VecDeque<u64>,
    capacity: usize,
}

impl View for DedupCache {
    /// The keys held, oldest first.
    type V = Seq<u64>;

    closed spec fn view(&self) -> Seq<u64> {
        self.order@
    }
}

impl DedupCache {
    pub closed spec fn wf(&self) -> bool {
        &&& self.order@.no_duplicates()
        &&& forall|k: u64| self.set@.contains(k) <==> self.order@.contains(k)
        &&& self.order@.len() <= self.capacity
        &&& self.capacity >= 1
    }

    pub closed spec fn spec_capacity(&self) -> nat {
        self.capacity as nat
    }

    /// An empty cache holding at most `capacity` keys.
    pub fn new(capacity: usize) -> (r: DedupCache)
        requires
            capacity >= 1,
        ensures
            r.wf(),
            r@ == Seq::<u64>::empty(),
            r.spec_capacity() == capacity,
    {
        DedupCache { set: HashSet::new(), order: VecDeque::new(), capacity }
    }

    pub fn capacity(&self) -> (r: usize)
        ensures
            r == self.spec_capacity(),
    {
        self.capacity
    }

    pub fn len(&self) -> (r: usize)
        requires
            self.wf(),
        ensures
            r == self@.len(),
    {
        self.order.len()
    }

    /// Whether `k` is held.
    pub fn contains(&self, k: u64) -> (r: bool)
        requires
            self.wf(),
        ensures
            r == self@.contains(k),
    {
        self.set.contains(&k)
    }

    /// Records `k` and returns true if it is not held; returns false, and
    /// changes nothing, if it is.
    pub fn insert(&mut self, k: u64) -> (r: bool)
        requires
            old(self).wf(),
        ensures
            final(self).wf(),
            r == !old(self)@.contains(k),
            final(self)@ == keys_after_insert(old(self)@, old(self).spec_capacity(), k),
            final(self).spec_capacity() == old(self).spec_capacity(),
    {
        if !self.set.insert(k) {
            return false;
        }
        let ghost before = self.order@;
        self.order.push_back(k);
        proof {
            assert forall|x: u64| self.set@.contains(x) <==> self.order@.contains(x) by {
                if self.order@.contains(x) {
                    let i = choose|i: int| 0 <= i < self.order@.len() && self.order@[i] == x;
                    if i < before.len() {
                        assert(before[i] == x);
                    }
                }
                if before.contains(x) {
                    let i = choose|i: int| 0 <= i < before.len() && before[i] == x;
                    assert(self.order@[i] == x);
                }
                if x == k {
                    assert(self.order@[before.len() as int] == k);
                }
            }
        }
        if self.order.len() > self.capacity {
            let ghost full = self.order@;
            match self.order.pop_front() {
                Some(oldest) => {
                    self.set.remove(&oldest);
                    proof {
                        assert forall|x: u64| self.set@.contains(x) <==> self.order@.contains(x) by {
                            if self.order@.contains(x) {
                                let i = choose|i: int| 0 <= i < self.order@.len() && self.order@[i] == x;
                                assert(full[i + 1] == x);
                                assert(full[0] == oldest);
                            }
                            if full.contains(x) && x != oldest {
                                let i = choose|i: int| 0 <= i < full.len() && full[i] == x;
                                assert(i != 0);
                                assert(self.order@[i - 1] == x);
                            }
                        }
                    }
                },
                None => {},
            }
        }
        true
    }
}

/// The abstract deduplicator: the cache's keys, its capacity, and the
/// exchange timestamp of the latest trade admitted.
pub struct DedupModel {
    pub keys: Seq<u64>,
    pub capacity: nat,
    pub last_timestamp: Option<i64>,
}

/// A trade older than the latest admitted one.
pub open spec fn too_old(last: Option<i64>, ts: i64) -> bool {
    match last {
        Some(l) => ts < l,
        None => false,
    }
}

/// Whether a trade with timestamp `ts` and identity `key` is admitted.
pub open spec fn admits(m: DedupModel, ts: i64, key: u64) -> bool {
    !too_old(m.last_timestamp, ts) && !m.keys.contains(key)
}

/// The deduplicator after offering a trade with timestamp `ts` and identity
/// `key`.
pub open spec fn after_offer(m: DedupModel, ts: i64, key: u64) -> DedupModel {
    if admits(m, ts, key) {
        DedupModel {
            keys: keys_after_insert(m.keys, m.capacity, key),
            capacity: m.capacity,
            last_timestamp: match m.last_timestamp {
                Some(l) => Some(if ts > l { ts } else { l }),
                None => Some(ts),
            },
        }
    } else {
        m
    }
}

/// Suppresses trades delivered again: a trade is admitted once per identity
/// within the cache's window, and never when older than the latest trade
/// admitted.
pub struct TradeDeduplicator {
    cache: DedupCache,
    last_timestamp: Option<i64>,
}

impl View for TradeDeduplicator {
    type V = DedupModel;

    closed spec fn view(&self) -> DedupModel {
        DedupModel {
            keys: self.cache@,
            capacity: self.cache.spec_capacity(),
            last_timestamp: self.last_timestamp,
        }
    }
}

impl TradeDeduplicator {
    pub closed spec fn wf(&self) -> bool {
        self.cache.wf()
    }

    /// A deduplicator remembering at most `capacity` identities.
    pub fn new(capacity: usize) -> (r: TradeDeduplicator)
        requires
            capacity >= 1,
        ensures
            r.wf(),
            r@ == (DedupModel { keys: Seq::empty(), capacity: capacity as nat, last_timestamp: None }),
    {
        TradeDeduplicator { cache: DedupCache::new(capacity), last_timestamp: None }
    }

    /// Returns true, and records the trade, when it is admitted; false when it
    /// is a duplicate or older than the latest trade admitted.
    pub fn offer(&mut self, t: &TradeRecord) -> (r: bool)
        requires
            old(self).wf(),
        ensures
            final(self).wf(),
            r == admits(old(self)@, t.exchange_timestamp, identity_of(*t)),
            final(self)@ == after_offer(old(self)@, t.exchange_timestamp, identity_of(*t)),
    {
        let ts = t.exchange_timestamp;
        match self.last_timestamp {
            Some(l) => if ts < l {
                return false;
            },
            None => {},
        }
        let key = identity_key(t);
        if !self.cache.insert(key) {
            return false;
        }
        self.last_timestamp = match self.last_timestamp {
            Some(l) => Some(if ts > l { ts } else { l }),
            None => Some(ts),
        };
        true
    }

    /// Offers `trades` in order and returns those admitted, in order.
    pub fn offer_batch(&mut self, trades: &Vec<TradeRecord>) -> (r: Vec<TradeRecord>)
        requires
            old(self).wf(),
        ensures
            final(self).wf(),
            final(self)@ == offers_applied(old(self)@, trades@),
            r@ == admitted_of(old(self)@, trades@),
    {
        let mut out: Vec<TradeRecord> = Vec::new();
        let mut i: usize = 0;
        while i < trades.len()
            invariant
                i <= trades@.len(),
                self.wf(),
                self@ == offers_applied(old(self)@, trades@.take(i as int)),
                out@ == admitted_of(old(self)@, trades@.take(i as int)),
            decreases trades@.len() - i,
        {
            proof {
                assert(trades@.take(i + 1).drop_last() =~= trades@.take(i as int));
            }
            if self.offer(&trades[i]) {
                out.push(trades[i]);
            }
            i = i + 1;
        }
        proof {
            assert(trades@.take(i as int) =~= trades@);
        }
        out
    }
}

/// The deduplicator after offering `ts` in order.
pub open spec fn offers_applied(m: DedupModel, ts: Seq<TradeRecord>) -> DedupModel
    decreases ts.len(),
{
    if ts.len() == 0 {
        m
    } else {
        let t = ts.last();
        after_offer(offers_applied(m, ts.drop_last()), t.exchange_timestamp, identity_of(t))
    }
}

/// The trades of `ts` that are admitted when offered in order.
pub open spec fn admitted_of(m: DedupModel, ts: Seq<TradeRecord>) -> Seq<TradeRecord>
    decreases ts.len(),
{
    if ts.len() == 0 {
        Seq::empty()
    } else {
        let t = ts.last();
        let before = admitted_of(m, ts.drop_last());
        if admits(offers_applied(m, ts.drop_last()), t.exchange_timestamp, identity_of(t)) {
            before.push(t)
        } else {
            before
        }
    }
}

/// Offering the same identity twice admits it the first time and refuses it
/// the second.
pub proof fn lemma_same_key_twice(m: DedupModel, ts: i64, key: u64)
    requires
        m.capacity >= 1,
        admits(m, ts, key),
    ensures
        !admits(after_offer(m, ts, key), ts, key),
{
    let p = m.keys.push(key);
    assert(p[p.len() - 1] == key);
    if m.keys.len() + 1 > m.capacity {
        assert(p.drop_first()[p.len() - 2] == key);
    }
}

/// With the cache full, one more admitted identity evicts the oldest, which
/// is then admitted again.
pub proof fn lemma_oldest_evicted(m: DedupModel, ts: i64, key: u64, later: i64)
    requires
        m.capacity >= 1,
        m.keys.len() == m.capacity,
        m.keys.no_duplicates(),
        admits(m, ts, key),
        later >= ts,
        !too_old(m.last_timestamp, later),
    ensures
        !after_offer(m, ts, key).keys.contains(m.keys[0]),
        admits(after_offer(m, ts, key), later, m.keys[0]),
{
    let oldest = m.keys[0];
    let after = after_offer(m, ts, key).keys;
    assert(after =~= m.keys.push(key).drop_first());
    if after.contains(oldest) {
        let i = choose|i: int| 0 <= i < after.len() && after[i] == oldest;
        if i + 1 < m.keys.len() {
            assert(m.keys[i + 1] == oldest);
        } else {
            assert(after[i] == key);
            assert(m.keys.contains(key));
        }
    }
}

} // verus!
