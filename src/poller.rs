//! The trade-polling path's decisions: which trades of a fetched page are
//! forwarded, and how long to wait before the next poll.
use crate::dedup::{admitted_of, offers_applied, DedupModel, TradeDeduplicator, TradeRecord};
use vstd::prelude::*;

verus! {

broadcast use vstd::seq_lib::group_to_multiset_ensures;

/// `a` comes no later than `b` in a page: by exchange timestamp, then by
/// exchange id, a trade without an id first.
pub open spec fn trade_le(a: TradeRecord, b: TradeRecord) -> bool {
    a.exchange_timestamp < b.exchange_timestamp || (a.exchange_timestamp == b.exchange_timestamp && match (
        a.exchange_id,
        b.exchange_id,
    ) {
        (None, _) => true,
        (Some(_), None) => false,
        (Some(x), Some(y)) => x <= y,
    })
}

pub open spec fn page_sorted(s: Seq<TradeRecord>) -> bool {
    forall|i: int, j: int| 0 <= i < j < s.len() ==> trade_le(#[trigger] s[i], #[trigger] s[j])
}

fn trade_le_exec(a: &TradeRecord, b: &TradeRecord) -> (r: bool)
    ensures
        r == trade_le(*a, *b),
{
    if a.exchange_timestamp != b.exchange_timestamp {
        return a.exchange_timestamp < b.exchange_timestamp;
    }
    match (a.exchange_id, b.exchange_id) {
        (None, _) => true,
        (Some(_), None) => false,
        (Some(x), Some(y)) => x <= y,
    }
}

/// Orders a page of trades by exchange timestamp, then exchange id, keeping
/// the order of trades that tie.
pub fn sort_page(page: Vec<TradeRecord>) -> (r: Vec<TradeRecord>)
    ensures
        page_sorted(r@),
        r@.to_multiset() == page@.to_multiset(),
{
    let mut out: Vec<TradeRecord> = Vec::new();
    let mut i: usize = 0;
    while i < page.len()
        invariant
            i <= page@.len(),
            page_sorted(out@),
            out@.to_multiset() == page@.take(i as int).to_multiset(),
        decreases page@.len() - i,
    {
        let x = page[i];
        let mut pos: usize = 0;
        while pos < out.len() && trade_le_exec(&out[pos], &x)
            invariant
                pos <= out@.len(),
                forall|j: int| 0 <= j < pos ==> trade_le(#[trigger] out@[j], x),
            decreases out@.len() - pos,
        {
            pos = pos + 1;
        }
        proof {
            assert forall|j: int| pos <= j < out@.len() implies !trade_le(#[trigger] out@[j], x) by {
                if j > pos {
                    assert(trade_le(out@[pos as int], out@[j]));
                }
            }
        }
        let ghost before = out@;
        out.insert(pos, x);
        proof {
            assert forall|a: int, b: int| 0 <= a < b < out@.len() implies trade_le(#[trigger] out@[a], #[trigger] out@[b]) by {
                if a < pos && b > pos {
                    assert(out@[a] == before[a]);
                    assert(out@[b] == before[b - 1]);
                } else if a < pos && b < pos {
                    assert(out@[a] == before[a]);
                    assert(out@[b] == before[b]);
                } else if a > pos {
                    assert(out@[a] == before[a - 1]);
                    assert(out@[b] == before[b - 1]);
                }
            }
            assert(page@.take(i + 1) =~= page@.take(i as int).push(x));
        }
        i = i + 1;
    }
    proof {
        assert(page@.take(i as int) =~= page@);
    }
    out
}

/// How one poll of the trades endpoint went.
pub enum PollOutcome {
    /// A page of trades, in non-decreasing exchange timestamp order.
    Trades(Vec<TradeRecord>),
    /// The request could not be sent or answered.
    RequestFailed,
    /// The response body could not be read.
    BodyFailed,
    /// The endpoint answered with an error status.
    BadStatus,
    /// The body is not a page of trades.
    Undecodable,
}

/// Waits between polls, in milliseconds.
#[derive(Clone, Copy, Debug, PartialEq, Eq, Structural)]
pub struct PollDelays {
    /// After a page was handled.
    pub after_page_ms: u64,
    /// After the request failed or the endpoint answered with an error status.
    pub after_request_error_ms: u64,
    /// After the body could not be read or decoded.
    pub after_decode_error_ms: u64,
}

/// The wait that follows an outcome.
pub open spec fn poll_delay(d: PollDelays, o: PollOutcome) -> u64 {
    match o {
        PollOutcome::Trades(_) => d.after_page_ms,
        PollOutcome::RequestFailed | PollOutcome::BadStatus => d.after_request_error_ms,
        PollOutcome::BodyFailed | PollOutcome::Undecodable => d.after_decode_error_ms,
    }
}

/// The trade poller: owns the deduplicator of the trade path.
pub struct TradePoller {
    dedup: TradeDeduplicator,
    delays: PollDelays,
}

impl TradePoller {
    pub closed spec fn wf(&self) -> bool {
        self.dedup.wf()
    }

    pub closed spec fn dedup_model(&self) -> DedupModel {
        self.dedup@
    }

    pub closed spec fn spec_delays(&self) -> PollDelays {
        self.delays
    }

    pub fn new(dedup: TradeDeduplicator, delays: PollDelays) -> (r: TradePoller)
        requires
            dedup.wf(),
        ensures
            r.wf(),
            r.dedup_model() == dedup@,
            r.spec_delays() == delays,
    {
        TradePoller { dedup, delays }
    }

    /// Takes the outcome of one poll: returns the trades to forward, in
    /// order, and the wait before the next poll.
    pub fn on_poll(&mut self, outcome: PollOutcome) -> (r: (Vec<TradeRecord>, u64))
        requires
            old(self).wf(),
        ensures
            final(self).wf(),
            final(self).spec_delays() == old(self).spec_delays(),
            r.1 == poll_delay(old(self).spec_delays(), outcome),
            match outcome {
                PollOutcome::Trades(page) => {
                    &&& final(self).dedup_model() == offers_applied(old(self).dedup_model(), page@)
                    &&& r.0@ == admitted_of(old(self).dedup_model(), page@)
                },
                _ => final(self).dedup_model() == old(self).dedup_model() && r.0@.len() == 0,
            },
    {
        match outcome {
            PollOutcome::Trades(page) => {
                let admitted = self.dedup.offer_batch(&page);
                (admitted, self.delays.after_page_ms)
            },
            PollOutcome::RequestFailed | PollOutcome::BadStatus => (Vec::new(), self.delays.after_request_error_ms),
            PollOutcome::BodyFailed | PollOutcome::Undecodable => (Vec::new(), self.delays.after_decode_error_ms),
        }
    }
}

} // verus!
