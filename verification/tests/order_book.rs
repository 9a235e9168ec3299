//! Order-book decoding, its error contexts, and the wire-row rendering.

use orderbook::bitstamp::error::{BitstampError, DecodeContext};
use orderbook::bitstamp::message::Message;
use orderbook::bitstamp::order_book::{OrderBookData, Price};

#[test]
fn order_book_test_parse() {
    let data = r#"{
     "timestamp": "1650247261",
     "microtimestamp": "1650247261276311",
     "bids": [ [ "0.07517475", "10.00000000", "1480344725942276" ], [ "0.07457290", "53.79000000", "1480325387767809" ] ],
     "asks": [ [ "0.07520827", "0.05000000", "1480344701804544" ], [ "0.07637348", "0.00268195", "1477883311575044" ] ]
   }"#;
    let data: OrderBookData = OrderBookData::from_text(data).unwrap();
    // Should read: Monday, April 18, 2022 2:01:01.276311 AM UTC.
    assert_eq!(data.timestamp_micros, 1650247261276311);

    // Make sure price and quantity are the right way around.
    assert_eq!(data.bids[0].price, 7517475);
    assert_eq!(data.bids[0].quantity, 1000000000);
}

#[test]
fn test_malformed_price_names_its_context() {
    let input = r#"{"data":{"microtimestamp":"1651388616274565",
        "bids":[["0.07315x13","0.40000000","1485019713925121"]],
        "asks":[]},"channel":"detail_order_book_ethbtc","event":"data"}"#;
    let err = Message::from_text(String::from(input)).unwrap_err();
    match err {
        BitstampError::Decoding { context, input: kept } => {
            assert_eq!(context, DecodeContext::OrderBookPrice);
            assert_eq!(context.label(), "Parse order book price");
            assert!(kept.contains("0.07315x13"));
        }
        other => panic!("expected a decoding error, got {other:?}"),
    }
}

#[test]
fn test_malformed_quantity_names_its_context() {
    let input = r#"{"data":{"microtimestamp":"1651388616274565",
        "bids":[["0.07315713","","1485019713925121"]],
        "asks":[]},"channel":"detail_order_book_ethbtc","event":"data"}"#;
    let err = Message::from_text(String::from(input)).unwrap_err();
    assert!(matches!(
        err,
        BitstampError::Decoding {
            context: DecodeContext::OrderBookQuantity,
            ..
        }
    ));
}

#[test]
fn test_malformed_order_id_names_its_context() {
    let input = r#"{"data":{"microtimestamp":"1651388616274565",
        "bids":[["0.07315713","0.4","14850abc"]],
        "asks":[]},"channel":"detail_order_book_ethbtc","event":"data"}"#;
    let err = Message::from_text(String::from(input)).unwrap_err();
    assert!(matches!(
        err,
        BitstampError::Decoding {
            context: DecodeContext::OrderBookOrderId,
            ..
        }
    ));
}

#[test]
fn test_malformed_microtimestamp_names_its_context() {
    let input = r#"{"data":{"microtimestamp":"not-a-number",
        "bids":[],
        "asks":[]},"channel":"detail_order_book_ethbtc","event":"data"}"#;
    let err = Message::from_text(String::from(input)).unwrap_err();
    assert!(matches!(
        err,
        BitstampError::Decoding {
            context: DecodeContext::Microtimestamp,
            ..
        }
    ));
}

#[test]
fn test_wrong_shape_is_reported_against_the_message() {
    // A bid row with only two fields does not match the schema.
    let input = r#"{"data":{"microtimestamp":"1","bids":[["0.1","0.2"]],"asks":[]},"event":"data"}"#;
    let err = Message::from_text(String::from(input)).unwrap_err();
    assert!(matches!(
        err,
        BitstampError::Decoding {
            context: DecodeContext::IncomingMessage,
            ..
        }
    ));
}

#[test]
fn test_row_render_round_trip() {
    let level = Price {
        price: 7517475,
        quantity: 1000000000,
        order_id: 1480344725942276,
    };
    let row = level.to_row();
    assert_eq!(row[0], "0.07517475");
    assert_eq!(row[1], "10");
    assert_eq!(row[2], "1480344725942276");

    let book = OrderBookData {
        timestamp_micros: 1650247261276311,
        bids: vec![level],
        asks: vec![],
    };
    let (micro, bid_rows, ask_rows) = book.to_raw();
    assert_eq!(micro, "1650247261276311");
    assert_eq!(bid_rows.len(), 1);
    assert_eq!(ask_rows.len(), 0);
    assert_eq!(bid_rows[0], vec!["0.07517475", "10", "1480344725942276"]);
}
