use market_transport::event::{L2BookUpdates, L2Level, MarketDataMessage, Side, TradeUpdate};
use market_transport::transport::{construct, RingTransport};

fn trade(seq: u64) -> MarketDataMessage {
    MarketDataMessage::Trade(TradeUpdate::new(
        seq,
        1_700_000_000_000_000 + seq,
        42,
        Side::Bid,
        1000.0f64.to_bits(),
        10.0f64.to_bits(),
    ))
}

fn seq_of(m: &MarketDataMessage) -> u64 {
    match m {
        MarketDataMessage::Trade(t) => t.sequence_id,
        MarketDataMessage::Quote(q) => q.sequence_id,
        MarketDataMessage::Close => panic!("sentinel has no sequence id"),
    }
}

#[test]
fn new_rejects_zero_capacity() {
    assert!(RingTransport::new(0).is_none());
    assert!(RingTransport::new(1).is_some());
}

#[test]
fn construct_rejects_zero_capacity() {
    assert!(construct(0).is_none());
    assert!(construct(1).is_some());
}

#[test]
fn fresh_transport_is_empty() {
    let mut rt = RingTransport::new(3).unwrap();
    assert!(rt.is_empty());
    assert!(!rt.is_full());
    assert_eq!(rt.len(), 0);
    assert_eq!(rt.capacity(), 3);
    assert!(rt.try_pop().is_none());
}

#[test]
fn fifo_order_is_kept() {
    let mut rt = RingTransport::new(16).unwrap();
    let events: Vec<MarketDataMessage> = (0..10).map(trade).collect();
    let out = rt.fifo_round_trip(events.clone());
    assert_eq!(out, events);
    assert!(rt.is_empty());
}

#[test]
fn pops_equal_pushes_exactly_once() {
    let mut rt = RingTransport::new(8).unwrap();
    let events: Vec<MarketDataMessage> = (0..8).map(trade).collect();
    rt.push_all(events.clone());
    assert_eq!(rt.len(), 8);
    let out = rt.drain();
    assert_eq!(out.len(), events.len());
    for (i, m) in out.iter().enumerate() {
        assert_eq!(seq_of(m), i as u64);
    }
    assert_eq!(rt.len(), 0);
}

#[test]
fn push_on_full_is_refused_and_state_kept() {
    let mut rt = RingTransport::new(4).unwrap();
    rt.push_all((0..4).map(trade).collect());
    assert!(rt.is_full());
    let refused = rt.try_push(trade(4));
    match refused {
        Err(back) => assert_eq!(back, trade(4)),
        Ok(()) => panic!("push on a full ring must be refused"),
    }
    assert_eq!(rt.len(), 4);
    let out = rt.drain();
    let ids: Vec<u64> = out.iter().map(seq_of).collect();
    assert_eq!(ids, vec![0, 1, 2, 3]);
}

#[test]
fn push_succeeds_after_one_pop() {
    let mut rt = RingTransport::new(4).unwrap();
    rt.push_all((0..4).map(trade).collect());
    let popped = rt.push_full_pop_push(trade(4));
    assert_eq!(seq_of(&popped), 0);
    let ids: Vec<u64> = rt.drain().iter().map(seq_of).collect();
    assert_eq!(ids, vec![1, 2, 3, 4]);
}

#[test]
fn scenario_capacity_four() {
    let mut rt = RingTransport::new(4).unwrap();
    for seq in 0..4 {
        assert!(rt.try_push(trade(seq)).is_ok());
    }
    let back = match rt.try_push(trade(4)) {
        Err(m) => m,
        Ok(()) => panic!("fifth push must report a full ring"),
    };
    let first = rt.try_pop().expect("four events are unread");
    assert_eq!(seq_of(&first), 0);
    assert!(rt.try_push(back).is_ok());
    let ids: Vec<u64> = rt.drain().iter().map(seq_of).collect();
    assert_eq!(ids, vec![1, 2, 3, 4]);
}

#[test]
fn quote_events_travel_unchanged() {
    let quote = MarketDataMessage::Quote(L2BookUpdates {
        sequence_id: 5,
        timestamp: 77,
        instrument_id: 9,
        bids: vec![L2Level { price_bits: 99.5f64.to_bits(), qty_bits: 3.0f64.to_bits(), count: 2 }],
        asks: vec![L2Level { price_bits: 100.5f64.to_bits(), qty_bits: 1.0f64.to_bits(), count: 1 }],
    });
    let mut rt = RingTransport::new(2).unwrap();
    assert!(rt.try_push(quote.clone()).is_ok());
    let out = rt.try_pop().unwrap();
    assert_eq!(out, quote);
}

#[test]
fn trade_update_new_sets_every_field() {
    let t = TradeUpdate::new(3, 101, 7, Side::Ask, 55, 66);
    assert_eq!(t.sequence_id, 3);
    assert_eq!(t.timestamp, 101);
    assert_eq!(t.instrument_id, 7);
    assert_eq!(t.side, Side::Ask);
    assert_eq!(t.price_bits, 55);
    assert_eq!(t.qty_bits, 66);
}

#[test]
fn price_bits_round_trip_through_f64() {
    let t = TradeUpdate::new(0, 0, 0, Side::Bid, 1000.0f64.to_bits(), 10.0f64.to_bits());
    assert_eq!(f64::from_bits(t.price_bits), 1000.0);
    assert_eq!(f64::from_bits(t.qty_bits), 10.0);
}
