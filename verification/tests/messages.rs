//! Control-message encoding and inbound-message decoding.

use orderbook::bitstamp::channel::{Channel, ChannelType};
use orderbook::bitstamp::currency_pair::CurrencyPair;
use orderbook::bitstamp::error::{BitstampError, DecodeContext};
use orderbook::bitstamp::message::{ChannelData, ErrorData, Message};
use orderbook::bitstamp::request::{Data, Event, Request};
use orderbook::frame::Frame;

#[test]
fn message_test_serialize() {
    let out = match Message::subscribe(ChannelType::DetailOrderBook, CurrencyPair::Ethbtc) {
        Frame::Text(s) => s,
        _ => panic!("It should be a text websocket message"),
    };
    assert_eq!(
        &out,
        r#"{"event":"bts:subscribe","data":{"channel":"detail_order_book_ethbtc"}}"#
    );
}

#[test]
fn test_subscribe_render() {
    let pair = CurrencyPair::Aavebtc;
    let raw = Message::subscribe(ChannelType::DetailOrderBook, pair);
    let decoded = Message::from_frame(raw).unwrap();
    let expected = Message::Subscribe {
        data: ChannelData {
            channel: Channel {
                channel_type: ChannelType::DetailOrderBook,
                pair: CurrencyPair::Aavebtc,
            },
        },
    };
    assert_eq!(decoded, expected);
}

#[test]
fn message_test_parse() {
    let input = r#"
            {"data":
            {"timestamp":"1651388616",
            "microtimestamp":"1651388616274565",
                "bids":[["0.07315713","0.40000000","1485019713925121"]],
                "asks":[["0.07320505","0.40000000","1485019610763265"]]
            },
            "channel":"detail_order_book_ethbtc",
            "event":"data"}"#;
    let message = Message::from_text(String::from(input)).unwrap();
    let expected = Message::Data {
        data: orderbook::bitstamp::order_book::OrderBookData {
            timestamp_micros: 1651388616274565,
            bids: vec![orderbook::bitstamp::order_book::Price {
                price: 7315713,
                quantity: 40000000,
                order_id: 1485019713925121,
            }],
            asks: vec![orderbook::bitstamp::order_book::Price {
                price: 7320505,
                quantity: 40000000,
                order_id: 1485019610763265,
            }],
        },
    };
    assert_eq!(message, expected);
}

#[test]
fn test_parse_error() {
    let input =
        "{\"event\":\"bts:error\",\"channel\":\"\",\"data\":{\"code\":null,\"message\":\"Bad subscription string.\"}}";
    let message = Message::from_text(String::from(input)).unwrap();
    assert_eq!(
        message,
        Message::Error {
            data: ErrorData {
                code: None,
                message: String::from("Bad subscription string."),
            }
        }
    );
}

#[test]
fn test_serialize() {
    let request = Request {
        event: Event::Subscribe,
        data: Data {
            channel: Channel {
                channel_type: ChannelType::LiveOrders,
                pair: CurrencyPair::Ethbtc,
            },
        },
    };
    let out = request.to_json();
    assert_eq!(
        &out,
        r#"{"event":"bts:subscribe","data":{"channel":"live_orders_ethbtc"}}"#
    );
}

#[test]
fn test_subscribe() {
    let pair = CurrencyPair::Aavebtc;
    let raw = Message::subscribe(ChannelType::DetailOrderBook, pair);
    let data = match raw {
        Frame::Text(data) => data,
        _ => panic!("It should be a text websocket message"),
    };
    let decoded = Request::from_text(&data).unwrap();
    let expected = Request {
        event: Event::Subscribe,
        data: Data {
            channel: Channel {
                channel_type: ChannelType::DetailOrderBook,
                pair,
            },
        },
    };
    assert_eq!(decoded, expected);
}

#[test]
fn test_unsubscribe() {
    let pair = CurrencyPair::Aavebtc;
    let raw = Message::unsubscribe(ChannelType::LiveOrders, pair);
    let data = match raw {
        Frame::Text(data) => data,
        _ => panic!("It should be a text websocket message"),
    };
    let decoded = Request::from_text(&data).unwrap();
    let expected = Request {
        event: Event::Unsubscribe,
        data: Data {
            channel: Channel {
                channel_type: ChannelType::LiveOrders,
                pair,
            },
        },
    };
    assert_eq!(decoded, expected);
}

#[test]
fn request_test_serialize() {
    let request = Request::subscribe_to_orders(CurrencyPair::Ethbtc);
    let out = request.to_json();
    assert_eq!(
        &out,
        r#"{"event":"bts:subscribe","data":{"channel":"live_orders_ethbtc"}}"#
    );
}

#[test]
fn test_subscribe_unsubscribe() {
    let pair = CurrencyPair::Aavebtc;
    {
        let subscribe = Request::subscribe_to_orders(pair);
        assert_eq!(subscribe.event, Event::Subscribe);
        assert_eq!(subscribe.data.channel.channel_type, ChannelType::LiveOrders);
        assert_eq!(subscribe.data.channel.pair, pair);
    }

    let unsubscribe = Request::unsubscribe_from_orders(pair);
    assert_eq!(unsubscribe.event, Event::Unsubscribe);
    assert_eq!(unsubscribe.data.channel.channel_type, ChannelType::LiveOrders);
    assert_eq!(unsubscribe.data.channel.pair, pair);
}

#[test]
fn test_unexpected_frame_is_refused() {
    let err = Message::from_frame(Frame::Binary(vec![1, 2, 3])).unwrap_err();
    assert!(matches!(err, BitstampError::UnexpectedFrame { .. }));
    let err = Message::from_frame(Frame::Close).unwrap_err();
    assert!(matches!(err, BitstampError::UnexpectedFrame { .. }));
}

#[test]
fn test_ping_becomes_message() {
    let m = Message::from_frame(Frame::Ping(vec![7, 8])).unwrap();
    assert_eq!(m, Message::Ping(vec![7, 8]));
}

#[test]
fn test_subscription_succeeded_parse() {
    let input = r#"{"event":"bts:subscription_succeeded","channel":"live_orders_ethbtc","data":{}}"#;
    let message = Message::from_text(String::from(input)).unwrap();
    assert_eq!(
        message,
        Message::SubscriptionSucceeded {
            channel: Channel {
                channel_type: ChannelType::LiveOrders,
                pair: CurrencyPair::Ethbtc,
            }
        }
    );
}

#[test]
fn test_channel_type_name_error() {
    let err = orderbook::bitstamp::channel::channel_from_name("bogus_ethbtc").unwrap_err();
    assert!(matches!(
        err,
        BitstampError::Decoding {
            context: DecodeContext::ChannelTypeName,
            ..
        }
    ));
}

#[test]
fn test_channel_pair_name_error() {
    let err = orderbook::bitstamp::channel::channel_from_name("live_orders_zzzzzz").unwrap_err();
    assert!(matches!(
        err,
        BitstampError::Decoding {
            context: DecodeContext::ChannelPairName,
            ..
        }
    ));
}

#[test]
fn test_channel_without_separator_error() {
    let err = orderbook::bitstamp::channel::channel_from_name("nounderscore").unwrap_err();
    assert!(matches!(err, BitstampError::DecodingGeneral { .. }));
}

#[test]
fn test_ticker_subscribe_json() {
    let mut ids = orderbook::binance::ticker::Ids::new();
    let first = ids.next();
    assert_eq!(first, 0);
    assert_eq!(ids.next(), 1);
    let request = orderbook::binance::ticker::Message::subscribe("ETHBTC@bookTicker", first);
    assert_eq!(
        &request.to_json(),
        r#"{"method":"SUBSCRIBE","params":["ETHBTC@bookTicker"],"id":0}"#
    );
    let request = orderbook::binance::ticker::Message::unsubscribe("ETHBTC@bookTicker", 2);
    assert_eq!(
        &request.to_json(),
        r#"{"method":"UNSUBSCRIBE","params":["ETHBTC@bookTicker"],"id":2}"#
    );
}
