//! The bitstamp feed adapter: channel naming, the subscribe/unsubscribe
//! handshake, frame handling, and decoding of detail-order-book snapshots.

pub mod channel;
pub mod currency_pair;
pub mod error;
pub mod message;
pub mod order_book;
pub mod request;
pub mod subscribe;
pub mod subscribe_guard;
