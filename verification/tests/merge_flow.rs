//! The merge scenario of two fixed snapshots, fail-fast propagation, and
//! teardown bookkeeping.

use orderbook::binance::error::BinanceError;
use orderbook::binance::model::{Depth, Price as BinPrice};
use orderbook::bitstamp::channel::ChannelType;
use orderbook::bitstamp::currency_pair::CurrencyPair;
use orderbook::bitstamp::error::BitstampError;
use orderbook::bitstamp::order_book::{OrderBookData, Price as BitPrice};
use orderbook::bitstamp::subscribe_guard::SubscribeGuard;
use orderbook::frame::Frame;
use orderbook::server::model::{make_merged_market_depth, Exchange};
use orderbook::bitstamp::message::Message;
use orderbook::bitstamp::subscribe::filter_message;
use orderbook::server::publish::{merge_streams, merge_tick, AdapterState, ServeError, Session};

/// One atom is 10^-8 of a unit.
const UNIT: u64 = 100_000_000;

fn snapshot_a() -> Depth {
    Depth {
        timestamp_micros: 1,
        bids: vec![
            BinPrice { amount: 100 * UNIT, quantity: UNIT },
            BinPrice { amount: 99 * UNIT + 50_000_000, quantity: 2 * UNIT },
        ],
        asks: vec![
            BinPrice { amount: 100 * UNIT + 50_000_000, quantity: UNIT },
            BinPrice { amount: 101 * UNIT, quantity: 3 * UNIT },
        ],
    }
}

fn snapshot_b() -> OrderBookData {
    OrderBookData {
        timestamp_micros: 2,
        bids: vec![BitPrice { price: 100 * UNIT + 20_000_000, quantity: 50_000_000, order_id: 11 }],
        asks: vec![BitPrice { price: 100 * UNIT + 30_000_000, quantity: 20_000_000, order_id: 12 }],
    }
}

#[test]
fn test_two_snapshot_scenario() {
    // Exchange A: bids [(100.0, 1.0), (99.5, 2.0)], asks [(100.5, 1.0), (101.0, 3.0)].
    // Exchange B: bids [(100.2, 0.5)], asks [(100.3, 0.2)].
    let summary = make_merged_market_depth(snapshot_a(), snapshot_b());
    let bid_prices: Vec<u64> = summary.bids.iter().map(|l| l.price).collect();
    let ask_prices: Vec<u64> = summary.asks.iter().map(|l| l.price).collect();
    // Merged bids descend: [100.2, 100.0, 99.5].
    assert_eq!(
        bid_prices,
        vec![100 * UNIT + 20_000_000, 100 * UNIT, 99 * UNIT + 50_000_000]
    );
    // Merged asks ascend: [100.3, 100.5, 101.0].
    assert_eq!(
        ask_prices,
        vec![100 * UNIT + 30_000_000, 100 * UNIT + 50_000_000, 101 * UNIT]
    );
    // Spread: 100.2 - 100.3 = -0.1.
    assert_eq!(summary.spread, -10_000_000);
    // The top of each side keeps its source tag.
    assert_eq!(summary.bids[0].exchange, Exchange::Bitstamp);
    assert_eq!(summary.bids[1].exchange, Exchange::Binance);
}

#[test]
fn test_merge_caps_each_side() {
    let mut bids = Vec::new();
    for i in 0..15u64 {
        bids.push(BinPrice { amount: (1000 + i) * UNIT, quantity: UNIT });
    }
    let a = Depth { timestamp_micros: 0, bids, asks: vec![] };
    let summary = make_merged_market_depth(a, snapshot_b());
    assert_eq!(summary.bids.len(), 10);
    // Strictly descending when all prices are distinct.
    for w in summary.bids.windows(2) {
        assert!(w[0].price > w[1].price);
    }
    // An empty ask side makes the spread 0... but B contributes one ask.
    assert_eq!(summary.asks.len(), 1);
}

#[test]
fn test_spread_zero_when_one_side_is_empty() {
    let a = Depth { timestamp_micros: 0, bids: vec![], asks: vec![] };
    let b = OrderBookData { timestamp_micros: 0, bids: vec![], asks: snapshot_b().asks };
    let summary = make_merged_market_depth(a, b);
    assert_eq!(summary.bids.len(), 0);
    assert_eq!(summary.asks.len(), 1);
    assert_eq!(summary.spread, 0);
}

#[test]
fn test_fail_fast_mid_stream() {
    // Exchange B errs on its second message; A stays healthy throughout.
    let avec = vec![Ok(snapshot_a()), Ok(snapshot_a()), Ok(snapshot_a())];
    let bvec = vec![
        Ok(snapshot_b()),
        Err(BitstampError::WebSocket { context: String::from("Receiving message") }),
        Ok(snapshot_b()),
    ];
    let out = merge_streams(avec, bvec);
    // One good summary, then the error, and nothing after it.
    assert_eq!(out.len(), 2);
    assert!(out[0].is_ok());
    match &out[1] {
        Err(ServeError::Internal { message }) => assert_eq!(message, "Internal error"),
        other => panic!("expected the generic internal error, got {other:?}"),
    }
}

#[test]
fn test_binance_error_is_reported_generically() {
    let tick = merge_tick(
        Err(BinanceError::Message { detail: String::from("connection reset") }),
        Ok(snapshot_b()),
    );
    match tick {
        Err(ServeError::Internal { message }) => {
            assert_eq!(message, "Retrieving binance order-book");
        }
        other => panic!("expected the generic internal error, got {other:?}"),
    }
}

#[test]
fn test_cancel_unsubscribes_each_adapter_exactly_once() {
    let mut session = Session::new(3);
    session.mark_failed(1);
    let sends = session.cancel();
    // Every adapter that still held a live subscription, each exactly once.
    assert_eq!(sends, vec![0, 2]);
    assert_eq!(session.adapters[0], AdapterState::Closing);
    assert_eq!(session.adapters[1], AdapterState::Failed);
    assert_eq!(session.adapters[2], AdapterState::Closing);
    // A second cancel has nothing left to send to.
    let again = session.cancel();
    assert!(again.is_empty());
}

#[test]
fn test_subscribe_guard_hands_out_one_unsubscribe() {
    let (mut guard, subscribe) = SubscribeGuard::new(ChannelType::DetailOrderBook, CurrencyPair::Ethbtc);
    match subscribe {
        Frame::Text(s) => assert_eq!(
            &s,
            r#"{"event":"bts:subscribe","data":{"channel":"detail_order_book_ethbtc"}}"#
        ),
        _ => panic!("the subscribe frame is text"),
    }
    let first = guard.take_unsubscribe();
    match first {
        Some(Frame::Text(s)) => assert_eq!(
            &s,
            r#"{"event":"bts:unsubscribe","data":{"channel":"detail_order_book_ethbtc"}}"#
        ),
        _ => panic!("the first teardown must hand out the unsubscribe frame"),
    }
    assert!(guard.take_unsubscribe().is_none());
    assert!(guard.take_unsubscribe().is_none());
}

#[test]
fn test_filter_keeps_only_order_books() {
    let data = Message::Data { data: snapshot_b() };
    assert_eq!(filter_message(data), Some(snapshot_b()));
    assert_eq!(filter_message(Message::Ping(vec![])), None);
}

#[test]
fn test_source_errors_are_masked() {
    // Whatever detail a source error carries, the subscriber sees only the
    // generic message.
    let tick = merge_tick(
        Err(BinanceError::Connect {
            url: String::from("wss://stream.binance.com:9443/ws/ethbtc@depth20@100ms"),
            detail: String::from("connection refused"),
        }),
        Ok(snapshot_b()),
    );
    assert!(matches!(tick, Err(ServeError::Internal { .. })));

    let tick = merge_tick(
        Ok(snapshot_a()),
        Err(BitstampError::WebSocketSend { context: String::from("Sending pong") }),
    );
    match tick {
        Err(ServeError::Internal { message }) => assert_eq!(message, "Internal error"),
        other => panic!("expected the generic internal error, got {other:?}"),
    }
}
