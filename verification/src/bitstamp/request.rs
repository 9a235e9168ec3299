//! The live-orders request model: a typed subscribe/unsubscribe request and
//! its JSON rendering.

use vstd::prelude::*;

use crate::bitstamp::channel::{
    channel_from_name, channel_name, spec_channel_from_name, spec_channel_name, Channel,
    ChannelType,
};
use crate::bitstamp::currency_pair::CurrencyPair;
use crate::bitstamp::message::{
    lemma_control_payload_parse, no_quotes, spec_control_payload,
};
use crate::json::{sp_find, sp_message, Inner, InnerView, Prim, PrimView, Val, ValView};

verus! {

/// The event a request names.
#[derive(Clone, Copy, PartialEq, Eq, Structural, Debug)]
pub enum Event {
    Subscribe,
    Unsubscribe,
}

/// The wire name of an event.
pub open spec fn spec_event_name(e: Event) -> Seq<char> {
    match e {
        Event::Subscribe => "bts:subscribe"@,
        Event::Unsubscribe => "bts:unsubscribe"@,
    }
}

/// Render an event as its wire name.
pub fn event_name(e: Event) -> (r: &'static str)
    ensures
        r@ == spec_event_name(e),
{
    match e {
        Event::Subscribe => "bts:subscribe",
        Event::Unsubscribe => "bts:unsubscribe",
    }
}

/// The data a request carries: the channel it concerns.
#[derive(Clone, Copy, PartialEq, Eq, Structural, Debug)]
pub struct Data {
    pub channel: Channel,
}

/// One outbound request: an event on a channel.
#[derive(Clone, Copy, PartialEq, Eq, Structural, Debug)]
pub struct Request {
    pub event: Event,
    pub data: Data,
}

impl Request {
    /// The request that subscribes to the live-orders channel of a pair.
    pub fn subscribe_to_orders(currency_pair: CurrencyPair) -> (r: Request)
        ensures
            r == (Request {
                event: Event::Subscribe,
                data: Data {
                    channel: Channel {
                        channel_type: ChannelType::LiveOrders,
                        pair: currency_pair,
                    },
                },
            }),
    {
        Request {
            event: Event::Subscribe,
            data: Data {
                channel: Channel { channel_type: ChannelType::LiveOrders, pair: currency_pair },
            },
        }
    }

    /// The request that unsubscribes from the live-orders channel of a pair.
    pub fn unsubscribe_from_orders(currency_pair: CurrencyPair) -> (r: Request)
        ensures
            r == (Request {
                event: Event::Unsubscribe,
                data: Data {
                    channel: Channel {
                        channel_type: ChannelType::LiveOrders,
                        pair: currency_pair,
                    },
                },
            }),
    {
        let mut out = Request::subscribe_to_orders(currency_pair);
        out.event = Event::Unsubscribe;
        out
    }

    /// The JSON text of this request:
    /// `{"event":"<event>","data":{"channel":"<channel>"}}`.
    pub fn to_json(&self) -> (r: String)
        ensures
            r@ == spec_control_payload(spec_event_name(self.event), spec_channel_name(
                self.data.channel,
            )),
    {
        let mut s = String::from_str("{\"event\":\"");
        s.append(event_name(self.event));
        s.append("\",\"data\":{\"channel\":\"");
        let name = channel_name(self.data.channel);
        s.append(name.as_str());
        s.append("\"}}");
        proof {
            assert(s@ =~= spec_control_payload(spec_event_name(self.event), spec_channel_name(
                self.data.channel,
            )));
        }
        s
    }
}

/// The request a text payload denotes, if any: a subscribe or unsubscribe
/// event on a channel the library knows.
pub open spec fn sp_request_text(s: Seq<char>) -> Option<Request> {
    match sp_message(s) {
        Some(ms) => match sp_find(ms, "event"@) {
            Some(ValView::Prim(PrimView::Str(ev))) => {
                let event = if ev == "bts:subscribe"@ {
                    Some(Event::Subscribe)
                } else if ev == "bts:unsubscribe"@ {
                    Some(Event::Unsubscribe)
                } else {
                    None
                };
                match event {
                    Some(event) => match sp_find(ms, "data"@) {
                        Some(ValView::Obj(dm)) => match sp_find(dm, "channel"@) {
                            Some(InnerView::Prim(PrimView::Str(ch))) => match
                            spec_channel_from_name(ch) {
                                Some(c) => Some(Request { event, data: Data { channel: c } }),
                                None => None,
                            },
                            _ => None,
                        },
                        _ => None,
                    },
                    None => None,
                }
            },
            _ => None,
        },
        None => None,
    }
}

impl Request {
    /// Decode a request payload back into the request model.
    pub fn from_text(s: &str) -> (r: Option<Request>)
        ensures
            r == sp_request_text(s@),
    {
        let ms = match crate::json::parse_message(s) {
            Some(ms) => ms,
            None => {
                return None;
            },
        };
        let ev_idx = match crate::json::find_val(&ms, "event") {
            Some(i) => i,
            None => {
                return None;
            },
        };
        let event = match &ms[ev_idx].1 {
            Val::Prim(Prim::Str(ev)) => {
                if crate::text::str_eq(ev.as_str(), "bts:subscribe") {
                    Event::Subscribe
                } else if crate::text::str_eq(ev.as_str(), "bts:unsubscribe") {
                    Event::Unsubscribe
                } else {
                    return None;
                }
            },
            _ => {
                return None;
            },
        };
        let data_idx = match crate::json::find_val(&ms, "data") {
            Some(i) => i,
            None => {
                return None;
            },
        };
        let dm = match &ms[data_idx].1 {
            Val::Obj(dm) => dm,
            _ => {
                return None;
            },
        };
        let ch_idx = match crate::json::find_inner(dm, "channel") {
            Some(i) => i,
            None => {
                return None;
            },
        };
        match &dm[ch_idx].1 {
            Inner::Prim(Prim::Str(ch)) => match channel_from_name(ch.as_str()) {
                Ok(c) => Some(Request { event, data: Data { channel: c } }),
                Err(_) => None,
            },
            _ => None,
        }
    }
}

/// Round trip: rendering a subscribe or unsubscribe request to its payload
/// and decoding the payload gives the same request back.
pub proof fn lemma_request_round_trip(r: Request)
    ensures
        sp_request_text(
            spec_control_payload(spec_event_name(r.event), spec_channel_name(r.data.channel)),
        ) == Some(r),
{
    reveal_strlit("bts:subscribe");
    reveal_strlit("bts:unsubscribe");
    reveal_strlit("event");
    reveal_strlit("data");
    reveal_strlit("channel");
    reveal_strlit("_");
    let ev = spec_event_name(r.event);
    let c = r.data.channel;
    let ch = spec_channel_name(c);
    assert("bts:subscribe"@.len() == 13);
    assert("bts:unsubscribe"@.len() == 15);
    assert(no_quotes(ev));
    crate::bitstamp::currency_pair::lemma_pair_name_wf(c.pair);
    reveal_strlit("live_orders");
    reveal_strlit("detail_order_book");
    assert(no_quotes(ch)) by {
        let tn = crate::bitstamp::channel::spec_channel_type_name(c.channel_type);
        let pn = crate::bitstamp::currency_pair::spec_pair_name(c.pair);
        assert(forall|k: int| 0 <= k < tn.len() ==> #[trigger] ch[k] == tn[k]);
        assert(ch[tn.len() as int] == '_');
        assert(forall|k: int|
            tn.len() + 1 <= k < ch.len() ==> #[trigger] ch[k] == pn[k - tn.len() - 1]);
        assert(forall|k: int|
            tn.len() + 1 <= k < ch.len()
                ==> crate::bitstamp::currency_pair::is_name_char(#[trigger] ch[k]));
    }
    lemma_control_payload_parse(ev, ch);
    let dm = seq![("channel"@, InnerView::Prim(PrimView::Str(ch)))];
    let ms = seq![
        ("event"@, ValView::Prim(PrimView::Str(ev))),
        ("data"@, ValView::Obj(dm)),
    ];
    assert(sp_find(ms, "event"@) == Some(ValView::Prim(PrimView::Str(ev))));
    assert("event"@.len() == 5 && "data"@.len() == 4);
    let tail = ms.drop_first();
    assert(tail =~= seq![("data"@, ValView::Obj(dm))]);
    assert(sp_find(tail, "data"@) == Some(ValView::Obj(dm)));
    assert(ms[0].0 != "data"@);
    assert(sp_find(ms, "data"@) == sp_find(tail, "data"@));
    assert(sp_find(dm, "channel"@) == Some(InnerView::Prim(PrimView::Str(ch))));
    crate::bitstamp::channel::lemma_channel_round_trip(c);
}

} // verus!
