//! The tagged union of market-data events carried over the transport.
//!
//! Prices and quantities travel as the raw IEEE-754 bit pattern of the
//! quoted `f64` value (`f64::to_bits`). The transport never interprets
//! them; callers that want the numeric value convert at the boundary.

use vstd::prelude::*;

verus! {

/// Which side of the book a trade belongs to.
#[derive(Clone, Copy, Debug, PartialEq, Eq, Structural)]
pub enum Side {
    Bid,
    Ask,
}

/// One price level of an order book, best-to-worst by position in the
/// surrounding level list. `price_bits` and `qty_bits` hold the bit
/// pattern of the quoted price and quantity.
#[derive(Clone, Copy, Debug, PartialEq, Eq, Structural)]
pub struct L2Level {
    pub price_bits: u64,
    pub qty_bits: u64,
    pub count: u32,
}

/// A full level-2 book snapshot for one instrument.
#[derive(Clone, Debug, PartialEq)]
pub struct L2BookUpdates {
    pub sequence_id: u64,
    pub timestamp: u64,
    pub instrument_id: u32,
    pub bids: Vec<L2Level>,
    pub asks: Vec<L2Level>,
}

/// A single trade print for one instrument.
#[derive(Clone, Copy, Debug, PartialEq, Eq, Structural)]
pub struct TradeUpdate {
    pub sequence_id: u64,
    pub timestamp: u64,
    pub instrument_id: u32,
    pub side: Side,
    pub price_bits: u64,
    pub qty_bits: u64,
}

impl TradeUpdate {
    /// Builds a trade event from its fields.
    pub fn new(s_id: u64, time: u64, i_id: u32, s: Side, p: u64, q: u64) -> (t: TradeUpdate)
        ensures
            t.sequence_id == s_id,
            t.timestamp == time,
            t.instrument_id == i_id,
            t.side == s,
            t.price_bits == p,
            t.qty_bits == q,
    {
        TradeUpdate {
            sequence_id: s_id,
            timestamp: time,
            instrument_id: i_id,
            side: s,
            price_bits: p,
            qty_bits: q,
        }
    }
}

/// One unit of traffic on the transport: business data (`Quote`, `Trade`)
/// or the shutdown sentinel (`Close`), which carries no payload and must
/// be the last value a producer ever pushes.
#[derive(Clone, Debug, PartialEq)]
pub enum MarketDataMessage {
    Quote(L2BookUpdates),
    Trade(TradeUpdate),
    Close,
}

/// True of the shutdown sentinel and of nothing else.
pub open spec fn is_close(m: MarketDataMessage) -> bool {
    m is Close
}

/// True when the sequence holds the shutdown sentinel somewhere.
pub open spec fn has_close(s: Seq<MarketDataMessage>) -> bool {
    exists|i: int| 0 <= i < s.len() && is_close(s[i])
}

/// Index of the first shutdown sentinel of the sequence, or its length
/// when none occurs.
pub open spec fn first_close(s: Seq<MarketDataMessage>) -> int
    decreases s.len(),
{
    if s.len() == 0 {
        0
    } else if is_close(s[0]) {
        0
    } else {
        1 + first_close(s.drop_first())
    }
}

/// `first_close` points at the first sentinel: it is in range exactly when
/// a sentinel occurs, the element there is a sentinel, and everything
/// before it is not.
pub proof fn lemma_first_close(s: Seq<MarketDataMessage>)
    ensures
        0 <= first_close(s) <= s.len(),
        has_close(s) <==> first_close(s) < s.len(),
        first_close(s) < s.len() ==> is_close(s[first_close(s)]),
        forall|j: int| 0 <= j < first_close(s) ==> !is_close(s[j]),
    decreases s.len(),
{
    if s.len() == 0 {
        assert(!has_close(s));
    } else if is_close(s[0]) {
        assert(has_close(s));
    } else {
        let t = s.drop_first();
        lemma_first_close(t);
        assert(forall|j: int| 0 <= j < t.len() ==> t[j] == s[j + 1]);
        if has_close(s) {
            let i = choose|i: int| 0 <= i < s.len() && is_close(s[i]);
            assert(t[i - 1] == s[i]);
            assert(has_close(t));
        }
        if has_close(t) {
            let i = choose|i: int| 0 <= i < t.len() && is_close(t[i]);
            assert(s[i + 1] == t[i]);
            assert(has_close(s));
        }
        assert(forall|j: int| 1 <= j < first_close(s) ==> !is_close(#[trigger] s[j])) by {
            assert(forall|j: int| 1 <= j < first_close(s) ==> s[j] == t[j - 1] && !is_close(t[j - 1]));
        }
    }
}

/// A position that holds a sentinel with none before it is exactly
/// `first_close`.
pub proof fn lemma_first_close_unique(s: Seq<MarketDataMessage>, k: int)
    requires
        0 <= k < s.len(),
        is_close(s[k]),
        forall|j: int| 0 <= j < k ==> !is_close(s[j]),
    ensures
        first_close(s) == k,
{
    lemma_first_close(s);
    assert(has_close(s));
    if first_close(s) < k {
        assert(!is_close(s[first_close(s)]));
    }
    if first_close(s) > k {
        assert(!is_close(s[k]));
    }
}

} // verus!
