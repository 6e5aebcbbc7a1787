//! Dispatch of textual feed messages: which topic a message belongs to, and
//! which sequenced order-book updates are passed on.
use vstd::prelude::*;
use vstd::utf8::encode_utf8;

verus! {

/// Topic prefix of order-book messages.
pub const ORDERBOOK_PREFIX: &'static str = "orderbook.";

/// Topic prefix of trade messages.
pub const TRADE_PREFIX: &'static str = "publicTrade.";

/// `p` starts `s`.
pub open spec fn has_prefix(s: Seq<u8>, p: Seq<u8>) -> bool {
    p.len() <= s.len() && s.subrange(0, p.len() as int) == p
}

/// Whether the UTF-8 text of `s` starts with that of `prefix`.
pub fn starts_with(s: &str, prefix: &str) -> (r: bool)
    ensures
        r == has_prefix(encode_utf8(s@), encode_utf8(prefix@)),
{
    let b = s.as_bytes();
    let p = prefix.as_bytes();
    if p.len() > b.len() {
        return false;
    }
    let mut i: usize = 0;
    while i < p.len()
        invariant
            b@ == encode_utf8(s@),
            p@ == encode_utf8(prefix@),
            p@.len() <= b@.len(),
            i <= p@.len(),
            forall|j: int| 0 <= j < i ==> b@[j] == p@[j],
        decreases p@.len() - i,
    {
        if b[i] != p[i] {
            assert(b@.subrange(0, p@.len() as int)[i as int] != p@[i as int]);
            return false;
        }
        i = i + 1;
    }
    assert(b@.subrange(0, p@.len() as int) =~= p@);
    true
}

/// What a topic carries.
#[derive(Clone, Copy, Debug, PartialEq, Eq, Structural)]
pub enum TopicKind {
    OrderBook,
    Trades,
    Other,
}

pub open spec fn topic_kind(topic: Seq<char>) -> TopicKind {
    if has_prefix(encode_utf8(topic), encode_utf8(ORDERBOOK_PREFIX@)) {
        TopicKind::OrderBook
    } else if has_prefix(encode_utf8(topic), encode_utf8(TRADE_PREFIX@)) {
        TopicKind::Trades
    } else {
        TopicKind::Other
    }
}

/// The kind of a topic, by its prefix.
pub fn classify_topic(topic: &str) -> (r: TopicKind)
    ensures
        r == topic_kind(topic@),
{
    if starts_with(topic, ORDERBOOK_PREFIX) {
        TopicKind::OrderBook
    } else if starts_with(topic, TRADE_PREFIX) {
        TopicKind::Trades
    } else {
        TopicKind::Other
    }
}

/// Drops order-book updates whose sequence number does not move forward.
pub struct SequenceFilter {
    pub last_seq: Option<i64>,
}

/// Whether a delta with sequence number `seq` is passed on after `last`.
pub open spec fn passes(last: Option<i64>, seq: Option<i64>) -> bool {
    match seq {
        Some(s) => match last {
            Some(l) => s > l,
            None => true,
        },
        None => false,
    }
}

impl SequenceFilter {
    pub fn new() -> (r: SequenceFilter)
        ensures
            r.last_seq is None,
    {
        SequenceFilter { last_seq: None }
    }

    /// A snapshot resets the sequence to its own (zero when it has none),
    /// which is returned.
    pub fn on_snapshot(&mut self, seq: Option<i64>) -> (r: i64)
        ensures
            r == (match seq {
                Some(s) => s,
                None => 0,
            }),
            final(self).last_seq == Some(r),
    {
        let s = match seq {
            Some(s) => s,
            None => 0,
        };
        self.last_seq = Some(s);
        s
    }

    /// Passes a delta on, and records its sequence number, only when it has
    /// one greater than the last recorded; otherwise it is stale or a
    /// duplicate and changes nothing.
    pub fn on_delta(&mut self, seq: Option<i64>) -> (r: bool)
        ensures
            r == passes(old(self).last_seq, seq),
            r ==> final(self).last_seq == seq,
            !r ==> final(self).last_seq == old(self).last_seq,
    {
        match seq {
            Some(s) => {
                let fresh = match self.last_seq {
                    Some(l) => s > l,
                    None => true,
                };
                if fresh {
                    self.last_seq = Some(s);
                }
                fresh
            },
            None => false,
        }
    }
}

} // verus!
