//! Book messages as they arrive: versions and levels still in decimal text.
use crate::book::PriceLevel;
use crate::decimal::{decimal_text, parse_decimal};
use vstd::prelude::*;

verus! {

/// A price level in text, as `[price, quantity]` on the wire.
pub struct RawLevel {
    pub price: String,
    pub quantity: String,
}

/// A depth delta as decoded from a binary frame: versions and levels in text.
pub struct RawDepthDelta {
    pub from_version: String,
    pub to_version: String,
    pub bids: Vec<RawLevel>,
    pub asks: Vec<RawLevel>,
}

/// A depth snapshot as returned by the REST endpoint.
pub struct Snapshot {
    pub last_update_id: u64,
    pub bids: Vec<RawLevel>,
    pub asks: Vec<RawLevel>,
}

/// The level that a text level denotes, if both amounts read.
pub open spec fn level_text(raw: RawLevel) -> Option<PriceLevel> {
    match (decimal_text(raw.price@), decimal_text(raw.quantity@)) {
        (Some(p), Some(q)) => Some(PriceLevel { price: p, quantity: q }),
        _ => None,
    }
}

/// Every level of `raws` reads.
pub open spec fn levels_readable(raws: Seq<RawLevel>) -> bool {
    forall|i: int| 0 <= i < raws.len() ==> (#[trigger] level_text(raws[i])) is Some
}

/// The levels that `raws` denote, where all of them read.
pub open spec fn levels_text(raws: Seq<RawLevel>) -> Seq<PriceLevel> {
    raws.map_values(|raw: RawLevel| level_text(raw)->0)
}

/// Reads one text level.
pub fn parse_level(raw: &RawLevel) -> (r: Option<PriceLevel>)
    ensures
        r == level_text(*raw),
{
    match (parse_decimal(raw.price.as_str()), parse_decimal(raw.quantity.as_str())) {
        (Some(price), Some(quantity)) => Some(PriceLevel { price, quantity }),
        _ => None,
    }
}

/// Reads every level of `raws`; nothing unless all of them read.
pub fn parse_levels(raws: &Vec<RawLevel>) -> (r: Option<Vec<PriceLevel>>)
    ensures
        r is Some <==> levels_readable(raws@),
        r matches Some(v) ==> v@ == levels_text(raws@),
{
    let mut out: Vec<PriceLevel> = Vec::new();
    let mut i: usize = 0;
    while i < raws.len()
        invariant
            i <= raws@.len(),
            levels_readable(raws@.subrange(0, i as int)),
            out@ == levels_text(raws@.subrange(0, i as int)),
        decreases raws@.len() - i,
    {
        match parse_level(&raws[i]) {
            None => {
                return None;
            },
            Some(level) => {
                out.push(level);
            },
        }
        i = i + 1;
        proof {
            assert forall|j: int| 0 <= j < i implies (#[trigger] level_text(raws@.subrange(0, i as int)[j])) is Some by {
                if j < i - 1 {
                    assert(raws@.subrange(0, i as int)[j] == raws@.subrange(0, i - 1)[j]);
                }
            }
            assert(out@ =~= levels_text(raws@.subrange(0, i as int)));
        }
    }
    proof {
        assert(raws@.subrange(0, i as int) =~= raws@);
    }
    Some(out)
}

} // verus!
