//! A guard that pairs every subscription with exactly one unsubscribe.
//!
//! Teardown needs a network round trip, so it cannot hide in a destructor
//! without blocking the scheduler: the guard instead *hands out* the frames
//! to send, and its state guarantees that the unsubscribe frame is produced
//! exactly once, however often teardown is attempted.

use vstd::prelude::*;

use crate::bitstamp::channel::{Channel, ChannelType};
use crate::bitstamp::currency_pair::CurrencyPair;
use crate::bitstamp::message::{spec_subscribe_payload, spec_unsubscribe_payload, Message};
use crate::frame::Frame;

verus! {

/// Tracks one channel subscription and whether its unsubscribe has been
/// handed out yet.
pub struct SubscribeGuard {
    pub channel_type: ChannelType,
    pub pair: CurrencyPair,
    pub unsubscribed: bool,
}

impl SubscribeGuard {
    /// A guard for one channel, together with the subscribe frame the caller
    /// must send to open the subscription.
    pub fn new(channel_type: ChannelType, pair: CurrencyPair) -> (r: (SubscribeGuard, Frame))
        ensures
            r.0.channel_type == channel_type,
            r.0.pair == pair,
            !r.0.unsubscribed,
            r.1 matches Frame::Text(s) && s@ == spec_subscribe_payload(
                Channel { channel_type, pair },
            ),
    {
        let frame = Message::subscribe(channel_type, pair);
        (SubscribeGuard { channel_type, pair, unsubscribed: false }, frame)
    }

    /// The unsubscribe frame to send: handed out on the first call, and
    /// never again.
    pub fn take_unsubscribe(&mut self) -> (r: Option<Frame>)
        ensures
            final (self).channel_type == old(self).channel_type,
            final (self).pair == old(self).pair,
            final (self).unsubscribed,
            old(self).unsubscribed ==> r is None,
            !old(self).unsubscribed ==> (r matches Some(f) && f matches Frame::Text(s) && s@
                == spec_unsubscribe_payload(
                Channel { channel_type: old(self).channel_type, pair: old(self).pair },
            )),
    {
        if self.unsubscribed {
            None
        } else {
            self.unsubscribed = true;
            Some(Message::unsubscribe(self.channel_type, self.pair))
        }
    }
}

} // verus!
