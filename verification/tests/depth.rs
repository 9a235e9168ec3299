//! Binance depth decoding and the fixed-point decimal parser.

use orderbook::binance::error::BinanceError;
use orderbook::binance::stream::{decode_depth, handle_frame, FrameStep};
use orderbook::decimal::{parse_fixed, parse_u64, render_fixed, render_u64};
use orderbook::frame::Frame;

#[test]
fn model_test_parse() {
    let input = r#"{"lastUpdateId":5144117438,"bids":[["0.07530500","38.24170000"],["0.07530400","0.12670000"],["0.07530100","8.14710000"],["0.07529600","0.22860000"],["0.07529500","2.70550000"],["0.07528900","0.60620000"],["0.07528700","0.00420000"],["0.07528500","2.81950000"],["0.07528400","3.83370000"],["0.07527300","1.25770000"],["0.07527200","3.93890000"],["0.07527000","11.91820000"],["0.07526900","11.66480000"],["0.07526600","0.17940000"],["0.07526500","10.03450000"],["0.07526400","11.91650000"],["0.07526300","14.16510000"],["0.07526200","60.80000000"],["0.07526100","1.18930000"],["0.07525800","1.12460000"]],"asks":[["0.07530600","3.81910000"],["0.07530700","8.25850000"],["0.07530800","0.10000000"],["0.07531200","2.74780000"],["0.07531300","0.09120000"],["0.07531800","2.36240000"],["0.07531900","0.16480000"],["0.07532100","10.25780000"],["0.07532200","15.12800000"],["0.07532300","16.20000000"],["0.07532400","0.04760000"],["0.07532500","1.00630000"],["0.07532800","3.64420000"],["0.07532900","3.77510000"],["0.07533000","0.53120000"],["0.07533100","2.15300000"],["0.07533200","10.30650000"],["0.07533300","1.32790000"],["0.07533400","23.50000000"],["0.07533900","5.30560000"]]}"#;
    let depth = decode_depth(String::from(input), 1651388616274565).unwrap();
    // Make sure it got the amount and quantity the right way around.
    assert_eq!(depth.bids[0].amount, 7530500);
    assert_eq!(depth.bids[0].quantity, 3824170000);
    assert_eq!(depth.bids.len(), 20);
    assert_eq!(depth.asks.len(), 20);
    assert_eq!(depth.timestamp_micros, 1651388616274565);
}

#[test]
fn test_depth_rejects_malformed_payload() {
    let err = decode_depth(String::from(r#"{"bids":[["a","1"]],"asks":[]}"#), 7).unwrap_err();
    match err {
        BinanceError::Json { original } => assert!(original.contains("bids")),
        other => panic!("expected a json error, got {other:?}"),
    }
}

#[test]
fn test_depth_frame_handling() {
    // A ping elicits a pong with the same bytes.
    match handle_frame(Frame::Ping(vec![1, 2]), 0) {
        FrameStep::Reply(Frame::Pong(bytes)) => assert_eq!(bytes, vec![1, 2]),
        _ => panic!("a ping must elicit a pong"),
    }
    // Any other non-text frame fails the stream.
    match handle_frame(Frame::Close, 0) {
        FrameStep::Yield(Err(BinanceError::UnexpectedFrame { .. })) => {}
        _ => panic!("a close frame must fail the stream"),
    }
}

#[test]
fn test_parse_fixed_values() {
    assert_eq!(parse_fixed("0.07530500"), Some(7530500));
    assert_eq!(parse_fixed("38.24170000"), Some(3824170000));
    assert_eq!(parse_fixed("38"), Some(3800000000));
    assert_eq!(parse_fixed("0"), Some(0));
    assert_eq!(parse_fixed(".5"), Some(50000000));
    assert_eq!(parse_fixed("5."), Some(500000000));
    assert_eq!(parse_fixed("100.2"), Some(10020000000));
}

#[test]
fn test_parse_fixed_rejects() {
    assert_eq!(parse_fixed(""), None);
    assert_eq!(parse_fixed("."), None);
    assert_eq!(parse_fixed("1.2.3"), None);
    assert_eq!(parse_fixed("abc"), None);
    assert_eq!(parse_fixed("-1"), None);
    assert_eq!(parse_fixed("2.2e-5"), None);
    // More fractional digits than the fixed point keeps.
    assert_eq!(parse_fixed("0.123456789"), None);
    // Does not fit in a u64 of atoms.
    assert_eq!(parse_fixed("999999999999999999999"), None);
}

#[test]
fn test_parse_u64_values() {
    assert_eq!(parse_u64("1485019713925121"), Some(1485019713925121));
    assert_eq!(parse_u64("0"), Some(0));
    assert_eq!(parse_u64(""), None);
    assert_eq!(parse_u64("12x"), None);
    assert_eq!(parse_u64("18446744073709551615"), Some(u64::MAX));
    assert_eq!(parse_u64("18446744073709551616"), None);
}

#[test]
fn test_render_round_trips() {
    assert_eq!(render_u64(0), "0");
    assert_eq!(render_u64(1480344725942276), "1480344725942276");
    assert_eq!(render_fixed(7530500), "0.07530500");
    assert_eq!(render_fixed(3800000000), "38");
    assert_eq!(render_fixed(10020000000), "100.20000000");
    assert_eq!(parse_fixed(&render_fixed(123456789)), Some(123456789));
    assert_eq!(parse_fixed(&render_fixed(u64::MAX)), Some(u64::MAX));
}
