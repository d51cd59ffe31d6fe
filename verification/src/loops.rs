//! The producer and consumer loop logic.
//!
//! The producer synthesizes a bounded run of trades with strictly
//! increasing sequence ids and a send-time timestamp, then exactly one
//! shutdown sentinel. The consumer polls, dispatches each event by kind,
//! and stops on the sentinel. Both are written here once over the
//! single-owner [`RingTransport`], where the whole effect is proved, and
//! once over the split handles, where the loop runs against a concurrent
//! peer and the contract keeps only what survives every interleaving.

use vstd::prelude::*;

use crate::event::{
    MarketDataMessage, Side, TradeUpdate, first_close, has_close, is_close, lemma_first_close,
    lemma_first_close_unique,
};
use crate::transport::{ConsumerHandle, ProducerHandle, RingTransport, ring_cap, ring_view};

verus! {

/// Relies on `std::time::SystemTime::now` for the wall clock, read as
/// microseconds since the epoch (zero if the clock sits before the
/// epoch). The value depends on the machine's clock alone, so nothing is
/// promised of it; it serves display, never ordering.
#[verifier::external_body]
fn now_micros() -> u64 {
    match std::time::SystemTime::now().duration_since(std::time::UNIX_EPOCH) {
        Ok(d) => d.as_micros() as u64,
        Err(_) => 0,
    }
}

/// What the consumer does with one received event: the transition of its
/// three-state poll/dispatch machine.
#[derive(Clone, Copy, Debug, PartialEq, Eq, Structural)]
pub enum ConsumerAction {
    /// Hand the event to the sink and go back to polling.
    Deliver,
    /// The shutdown sentinel arrived: leave the loop.
    Stop,
}

/// Dispatches one event by kind: business data is delivered, the
/// shutdown sentinel stops the consumer — and nothing else does.
pub fn dispatch(m: &MarketDataMessage) -> (a: ConsumerAction)
    ensures
        a is Stop <==> is_close(*m),
{
    match m {
        MarketDataMessage::Quote(_) => ConsumerAction::Deliver,
        MarketDataMessage::Trade(_) => ConsumerAction::Deliver,
        MarketDataMessage::Close => ConsumerAction::Stop,
    }
}

/// The event at position `j` is a trade whose sequence id equals `j` and
/// whose instrument, side and payload are the given fixed ones.
pub open spec fn trade_at(
    s: Seq<MarketDataMessage>,
    j: int,
    instrument_id: u32,
    price_bits: u64,
    qty_bits: u64,
) -> bool {
    s[j] matches MarketDataMessage::Trade(t) && t.sequence_id == j
        && t.instrument_id == instrument_id && t.side == Side::Bid
        && t.price_bits == price_bits && t.qty_bits == qty_bits
}

/// The producer policy over the single-owner transport: appends `count`
/// trades with sequence ids `0..count`, a timestamp sampled at send time,
/// and the given fixed instrument, side and payload, then exactly one
/// shutdown sentinel — the last value this producer ever pushes.
pub fn run_producer(
    rt: &mut RingTransport,
    count: u64,
    instrument_id: u32,
    price_bits: u64,
    qty_bits: u64,
)
    requires
        ring_view(*old(rt)).len() == 0,
        count + 1 <= ring_cap(*old(rt)),
    ensures
        ring_cap(*final(rt)) == ring_cap(*old(rt)),
        ring_view(*final(rt)).len() == count + 1,
        forall|j: int| 0 <= j < count ==> trade_at(
            ring_view(*final(rt)), j, instrument_id, price_bits, qty_bits,
        ),
        is_close(ring_view(*final(rt))[count as int]),
        first_close(ring_view(*final(rt))) == count,
{
    let mut i: u64 = 0;
    while i < count
        invariant
            i <= count,
            count + 1 <= ring_cap(*rt),
            ring_cap(*rt) == ring_cap(*old(rt)),
            ring_view(*rt).len() == i,
            forall|j: int| 0 <= j < i ==> trade_at(
                ring_view(*rt), j, instrument_id, price_bits, qty_bits,
            ),
        decreases count - i,
    {
        let ghost view_before = ring_view(*rt);
        let ts = now_micros();
        let t = TradeUpdate::new(i, ts, instrument_id, Side::Bid, price_bits, qty_bits);
        let _ = rt.try_push(MarketDataMessage::Trade(t));
        proof {
            assert forall|j: int| 0 <= j <= i implies trade_at(
                ring_view(*rt), j, instrument_id, price_bits, qty_bits,
            ) by {
                if j < i {
                    assert(trade_at(view_before, j, instrument_id, price_bits, qty_bits));
                    assert(ring_view(*rt)[j] == view_before[j]);
                }
            }
        }
        i = i + 1;
    }
    let ghost view_data = ring_view(*rt);
    let _ = rt.try_push(MarketDataMessage::Close);
    proof {
        assert forall|j: int| 0 <= j < count implies trade_at(
            ring_view(*rt), j, instrument_id, price_bits, qty_bits,
        ) by {
            assert(trade_at(view_data, j, instrument_id, price_bits, qty_bits));
            assert(ring_view(*rt)[j] == view_data[j]);
        }
        assert forall|j: int| 0 <= j < count implies !is_close(ring_view(*rt)[j]) by {
            assert(trade_at(ring_view(*rt), j, instrument_id, price_bits, qty_bits));
        }
        lemma_first_close_unique(ring_view(*rt), count as int);
    }
}

/// The consumer loop over the single-owner transport: polls, pops and
/// dispatches until the first shutdown sentinel. It delivers exactly the
/// events pushed before that sentinel, in arrival order, each once; it
/// stops on the sentinel, never delivers it, and never reads past it.
pub fn run_consumer(rt: &mut RingTransport) -> (delivered: Vec<MarketDataMessage>)
    requires
        has_close(ring_view(*old(rt))),
    ensures
        ring_cap(*final(rt)) == ring_cap(*old(rt)),
        delivered@ == ring_view(*old(rt)).take(first_close(ring_view(*old(rt)))),
        ring_view(*final(rt)) == ring_view(*old(rt)).skip(first_close(ring_view(*old(rt))) + 1),
        forall|j: int| 0 <= j < delivered@.len() ==> !is_close(delivered@[j]),
{
    let ghost v0 = ring_view(*rt);
    let ghost k = first_close(v0);
    proof {
        lemma_first_close(v0);
    }
    let mut delivered: Vec<MarketDataMessage> = Vec::new();
    let mut stopped = false;
    while !stopped
        invariant
            ring_cap(*rt) == ring_cap(*old(rt)),
            v0 == ring_view(*old(rt)),
            k == first_close(v0),
            0 <= k < v0.len(),
            is_close(v0[k]),
            forall|j: int| 0 <= j < k ==> !is_close(v0[j]),
            !stopped ==> delivered@.len() <= k
                && delivered@ == v0.take(delivered@.len() as int)
                && ring_view(*rt) == v0.skip(delivered@.len() as int),
            stopped ==> delivered@ == v0.take(k) && ring_view(*rt) == v0.skip(k + 1),
        decreases (if stopped { 0int } else { k + 1 - delivered@.len() }),
    {
        let ghost n = delivered@.len() as int;
        if !rt.is_empty() {
            match rt.try_pop() {
                Some(m) => {
                    proof {
                        assert(v0.skip(n)[0] == v0[n]);
                    }
                    match dispatch(&m) {
                        ConsumerAction::Stop => {
                            proof {
                                assert(n == k) by {
                                    if n < k {
                                        assert(!is_close(v0[n]));
                                    }
                                };
                                assert(v0.skip(n).drop_first() =~= v0.skip(k + 1));
                            }
                            stopped = true;
                        }
                        ConsumerAction::Deliver => {
                            proof {
                                assert(n < k) by {
                                    if n == k {
                                        assert(is_close(v0[k]));
                                    }
                                };
                                assert(v0.take(n).push(v0[n]) =~= v0.take(n + 1));
                                assert(v0.skip(n).drop_first() =~= v0.skip(n + 1));
                            }
                            delivered.push(m);
                        }
                    }
                }
                None => {}
            }
        }
    }
    proof {
        assert(forall|j: int| 0 <= j < delivered@.len() ==> delivered@[j] == v0[j]);
    }
    delivered
}

/// The termination-determinism law, executable: after the producer sends
/// `count` data events followed by one shutdown sentinel, the consumer
/// delivers exactly those `count` trades, in order, then stops; nothing
/// after the sentinel is processed and the transport ends empty.
pub fn produce_then_consume(
    rt: &mut RingTransport,
    count: u64,
    instrument_id: u32,
    price_bits: u64,
    qty_bits: u64,
) -> (delivered: Vec<MarketDataMessage>)
    requires
        ring_view(*old(rt)).len() == 0,
        count + 1 <= ring_cap(*old(rt)),
    ensures
        ring_cap(*final(rt)) == ring_cap(*old(rt)),
        delivered@.len() == count,
        forall|j: int| 0 <= j < count ==> trade_at(
            delivered@, j, instrument_id, price_bits, qty_bits,
        ),
        ring_view(*final(rt)).len() == 0,
{
    run_producer(rt, count, instrument_id, price_bits, qty_bits);
    let ghost mid = ring_view(*rt);
    proof {
        lemma_first_close(mid);
    }
    let delivered = run_consumer(rt);
    proof {
        assert forall|j: int| 0 <= j < count implies trade_at(
            delivered@, j, instrument_id, price_bits, qty_bits,
        ) by {
            assert(trade_at(mid, j, instrument_id, price_bits, qty_bits));
            assert(delivered@[j] == mid[j]);
        }
    }
    delivered
}

/// Pushes one event through a producer handle under the busy-wait
/// backpressure policy, spinning for at most `spin_budget` attempts. A
/// refused element comes back unchanged, so on failure the caller gets
/// the very event back and nothing was sent. The budget is the waiting
/// strategy made explicit; a caller that wants the pure spin passes
/// `u64::MAX`, which at any real drain rate never runs out.
pub fn push_spinning(
    p: &mut ProducerHandle,
    e: MarketDataMessage,
    spin_budget: u64,
) -> (r: Result<(), MarketDataMessage>)
    ensures
        r matches Err(back) ==> back == e,
{
    let mut item = e;
    let mut attempts: u64 = 0;
    loop
        invariant
            item == e,
            attempts <= spin_budget,
        decreases spin_budget - attempts,
    {
        if attempts >= spin_budget {
            return Err(item);
        }
        match p.try_push(item) {
            Ok(()) => {
                return Ok(());
            }
            Err(back) => {
                item = back;
            }
        }
        attempts = attempts + 1;
    }
}

/// The producer loop for the split, two-thread transport: emits `count`
/// trades with sequence ids `0..count`, send-time timestamps and the
/// given fixed payload, then exactly one shutdown sentinel, each under
/// the spinning retry policy. The shared contents interleave with the
/// consumer's draining, so no view of the ring can be stated here; what
/// each pushed value holds is fixed by its construction. If one event
/// exhausts the spin budget it is returned and nothing further is sent,
/// so the sentinel is pushed only after every data event before it.
pub fn producer_run(
    p: &mut ProducerHandle,
    count: u64,
    instrument_id: u32,
    price_bits: u64,
    qty_bits: u64,
    spin_budget: u64,
) -> (r: Result<(), MarketDataMessage>)
    ensures
        r matches Err(back) ==> is_close(back) || (back matches MarketDataMessage::Trade(t)
            && t.sequence_id < count && t.instrument_id == instrument_id
            && t.side == Side::Bid && t.price_bits == price_bits && t.qty_bits == qty_bits),
{
    let mut i: u64 = 0;
    while i < count
        invariant
            i <= count,
        decreases count - i,
    {
        let ts = now_micros();
        let t = TradeUpdate::new(i, ts, instrument_id, Side::Bid, price_bits, qty_bits);
        match push_spinning(p, MarketDataMessage::Trade(t), spin_budget) {
            Ok(()) => {}
            Err(back) => {
                return Err(back);
            }
        }
        i = i + 1;
    }
    push_spinning(p, MarketDataMessage::Close, spin_budget)
}

/// The consumer loop for the split transport: polls, pops and dispatches
/// until the first shutdown sentinel, spinning while the ring shows
/// empty, with at most `spin_budget` loop turns in all. Whatever
/// interleaving the producer creates, the delivered events hold no
/// sentinel and nothing read after one: the first sentinel stops the
/// loop, reported by a `true` flag. A `false` flag means the budget ran
/// out first; with `u64::MAX` that never happens before the producer
/// fails to send the sentinel at all, the open liveness caveat of a
/// sentinel-only shutdown.
pub fn consumer_run(
    c: &mut ConsumerHandle,
    spin_budget: u64,
) -> (r: (Vec<MarketDataMessage>, bool))
    ensures
        forall|j: int| 0 <= j < r.0@.len() ==> !is_close(r.0@[j]),
{
    let mut delivered: Vec<MarketDataMessage> = Vec::new();
    let mut turns: u64 = 0;
    loop
        invariant
            turns <= spin_budget,
            forall|j: int| 0 <= j < delivered@.len() ==> !is_close(delivered@[j]),
        decreases spin_budget - turns,
    {
        if turns >= spin_budget {
            return (delivered, false);
        }
        if !c.is_empty() {
            match c.try_pop() {
                Some(m) => match dispatch(&m) {
                    ConsumerAction::Stop => {
                        return (delivered, true);
                    }
                    ConsumerAction::Deliver => {
                        delivered.push(m);
                    }
                },
                None => {}
            }
        }
        turns = turns + 1;
    }
}

} // verus!
