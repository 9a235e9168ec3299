//! Frame handling for a bitstamp subscription: what each inbound frame
//! elicits, and which decoded messages carry an order book on to the merge
//! engine.  The connection itself and the task that pumps it stay outside
//! the library.

use vstd::prelude::*;

use crate::bitstamp::error::{BitstampError, DecodeContext};
use crate::bitstamp::message::{sp_bitstamp_text, Message, MessageView};
use crate::bitstamp::order_book::{OrderBookData, RowError};
use crate::frame::Frame;

verus! {

/// What one inbound frame elicits from the subscription.
pub enum FrameAction {
    /// Send this frame back on the connection (a pong for a ping).
    Reply(Frame),
    /// Forward this decode result to the consumer.
    Forward(Result<Message, BitstampError>),
}

/// Decide what one inbound frame elicits: a ping elicits a pong of the same
/// bytes; a text frame forwards its decoded message (or the decode error);
/// any other frame type fails the stream as unexpected.
pub fn handle_frame(frame: Frame) -> (r: FrameAction)
    ensures
        frame matches Frame::Ping(d) ==> (r matches FrameAction::Reply(f) && f matches Frame::Pong(
            e,
        ) && e@ == d@),
        frame matches Frame::Text(s) ==> (match sp_bitstamp_text(s@) {
            Ok(mv) => r matches FrameAction::Forward(Ok(m)) && m@ == mv,
            Err(RowError::Field(ctx)) => r matches FrameAction::Forward(
                Err(BitstampError::Decoding { context, input }),
            ) && context == ctx && input@ == s@,
            Err(RowError::Shape) => r matches FrameAction::Forward(
                Err(BitstampError::Decoding { context, input }),
            ) && context == DecodeContext::IncomingMessage && input@ == s@,
        }),
        frame is Binary || frame is Pong || frame is Close ==> r matches FrameAction::Forward(
            Err(BitstampError::UnexpectedFrame { .. }),
        ),
{
    match frame {
        Frame::Ping(d) => FrameAction::Reply(Frame::Pong(d)),
        f => FrameAction::Forward(Message::from_frame(f)),
    }
}

/// Keep only the order-book updates of a decoded message stream: a `Data`
/// message hands its book on; acknowledgements, server errors, and control
/// messages are dropped.
pub fn filter_message(m: Message) -> (r: Option<OrderBookData>)
    ensures
        m matches Message::Data { data } ==> (r matches Some(d) && d == data),
        !(m is Data) ==> r is None,
{
    match m {
        Message::Data { data } => Some(data),
        _ => None,
    }
}

} // verus!
