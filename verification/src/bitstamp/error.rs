//! Errors of the bitstamp feed adapter.

use vstd::prelude::*;

verus! {

/// Which decoding step failed.  Each variant renders as the human-readable
/// context label that diagnostics carry.
#[derive(Clone, Copy, PartialEq, Eq, Structural, Debug)]
pub enum DecodeContext {
    /// An inbound text frame did not parse against the message schema.
    IncomingMessage,
    /// A channel name's prefix is not a known channel type.
    ChannelTypeName,
    /// A channel name's suffix is not a known currency pair.
    ChannelPairName,
    /// A price field of an order-book row did not parse.
    OrderBookPrice,
    /// A quantity field of an order-book row did not parse.
    OrderBookQuantity,
    /// An order-id field of an order-book row did not parse.
    OrderBookOrderId,
    /// The microsecond timestamp of an order book did not parse.
    Microtimestamp,
}

impl DecodeContext {
    /// The context label, as diagnostics print it.
    pub fn label(&self) -> (r: &'static str) {
        match self {
            DecodeContext::IncomingMessage => "Incoming Message",
            DecodeContext::ChannelTypeName => "Invalid channel-type-name",
            DecodeContext::ChannelPairName => "Unspported Channel name (due to channel currency pair / suffix)",
            DecodeContext::OrderBookPrice => "Parse order book price",
            DecodeContext::OrderBookQuantity => "Parse order book quantity",
            DecodeContext::OrderBookOrderId => "Parse order book order_id",
            DecodeContext::Microtimestamp => "Parse a micro second timestamp into u64 from order book data",
        }
    }
}

/// An error of the bitstamp adapter.
#[derive(Clone, PartialEq, Eq, Debug)]
pub enum BitstampError {
    /// An inbound payload did not decode; keeps the offending input and the
    /// context label of the step that failed.
    Decoding { context: DecodeContext, input: String },
    /// A decoding failure with no single offending field.
    DecodingGeneral { reason: String },
    /// An inbound frame of a type the adapter does not handle.
    UnexpectedFrame { reason: String },
    /// The transport failed while reading.
    WebSocket { context: String },
    /// The transport failed while writing a control message.
    WebSocketSend { context: String },
}

impl BitstampError {
    /// Create an error for decoding an incoming message.
    pub fn decoding(context: DecodeContext, input: String) -> (r: BitstampError)
        ensures
            r matches BitstampError::Decoding { context: c, input: i } && c == context && i@
                == input@,
    {
        BitstampError::Decoding { context, input }
    }

    /// A decoding error with no single offending field.
    pub fn decoding_general(reason: String) -> (r: BitstampError)
        ensures
            r matches BitstampError::DecodingGeneral { reason: s } && s@ == reason@,
    {
        BitstampError::DecodingGeneral { reason }
    }
}

} // verus!
