//! The messages of bitstamp's websocket interface: the subscribe and
//! unsubscribe control messages the adapter sends, and the inbound messages
//! it decodes.

use vstd::prelude::*;

use crate::bitstamp::channel::{
    channel_name, spec_channel_from_name, spec_channel_name, Channel, ChannelType,
};
use crate::bitstamp::currency_pair::CurrencyPair;
use crate::bitstamp::error::{BitstampError, DecodeContext};
use crate::bitstamp::order_book::{sp_order_book, OrderBookData, OrderBookView, RowError};
use crate::decimal::{all_digits, digits_val, parse_u64};
use crate::frame::Frame;
use crate::json::{
    sp_find, sp_inner, sp_member, sp_message, sp_obj_members, sp_obj_rest, sp_prim, sp_string,
    sp_top_member, sp_top_members, sp_top_rest, sp_val, sp_ws, Inner, InnerView, Prim, PrimView,
    Val, ValView,
};

verus! {

/// The payload of an inbound server-error message.
#[derive(Clone, PartialEq, Eq, Debug)]
pub struct ErrorData {
    pub code: Option<u32>,
    pub message: String,
}

/// The payload of a subscribe request: the channel it names.
#[derive(Clone, Copy, PartialEq, Eq, Structural, Debug)]
pub struct ChannelData {
    pub channel: Channel,
}

/// One message of the websocket interface.
#[derive(Clone, PartialEq, Eq, Debug)]
pub enum Message {
    /// An outbound (or echoed) subscribe request.
    Subscribe { data: ChannelData },
    /// The server acknowledged a subscription.
    SubscriptionSucceeded { channel: Channel },
    /// One order-book snapshot.
    Data { data: OrderBookData },
    /// A protocol-level ping, to be answered with a pong of the same bytes.
    Ping(Vec<u8>),
    /// A protocol-level pong.
    Pong(Vec<u8>),
    /// The server reported an error.
    Error { data: ErrorData },
}

/// The mathematical value of a `Message`.
pub enum MessageView {
    Subscribe { channel: Channel },
    SubscriptionSucceeded { channel: Channel },
    Data { data: OrderBookView },
    Ping(Seq<u8>),
    Pong(Seq<u8>),
    Error { code: Option<u32>, message: Seq<char> },
}

impl View for Message {
    type V = MessageView;

    open spec fn view(&self) -> MessageView {
        match self {
            Message::Subscribe { data } => (MessageView::Subscribe { channel: data.channel }),
            Message::SubscriptionSucceeded { channel } => (MessageView::SubscriptionSucceeded {
                channel: *channel,
            }),
            Message::Data { data } => (MessageView::Data { data: data@ }),
            Message::Ping(b) => MessageView::Ping(b@),
            Message::Pong(b) => MessageView::Pong(b@),
            Message::Error { data } => (MessageView::Error {
                code: data.code,
                message: data.message@,
            }),
        }
    }
}

/// The JSON text of a control message naming `event` and `channel`:
/// `{"event":"<event>","data":{"channel":"<channel>"}}`.
pub open spec fn spec_control_payload(event: Seq<char>, channel: Seq<char>) -> Seq<char> {
    "{\"event\":\""@ + event + "\",\"data\":{\"channel\":\""@ + channel + "\"}}"@
}

/// The subscribe request payload for one channel.
pub open spec fn spec_subscribe_payload(c: Channel) -> Seq<char> {
    spec_control_payload("bts:subscribe"@, spec_channel_name(c))
}

/// The unsubscribe request payload for one channel.
pub open spec fn spec_unsubscribe_payload(c: Channel) -> Seq<char> {
    spec_control_payload("bts:unsubscribe"@, spec_channel_name(c))
}

/// Build the control-message text for one event and channel.
fn render_control_payload(event: &str, c: Channel) -> (r: String)
    ensures
        r@ == spec_control_payload(event@, spec_channel_name(c)),
{
    let mut s = String::from_str("{\"event\":\"");
    s.append(event);
    s.append("\",\"data\":{\"channel\":\"");
    let name = channel_name(c);
    s.append(name.as_str());
    s.append("\"}}");
    proof {
        assert(s@ =~= spec_control_payload(event@, spec_channel_name(c)));
    }
    s
}

/// A digit string that fits an error code (`u32`).
pub open spec fn code_ok(t: Seq<char>) -> bool {
    all_digits(t) && t.len() > 0 && digits_val(t) <= u32::MAX
}

/// The message a text payload denotes, decided by its `event` member:
/// a subscribe echo, a subscription acknowledgement, an order-book update,
/// or a server error.  Anything else — an unknown event, a missing member,
/// the wrong shape — is a shape failure; a field of an order-book update
/// that does not parse names its context.
pub open spec fn sp_bitstamp_text(s: Seq<char>) -> Result<MessageView, RowError> {
    match sp_message(s) {
        Some(ms) => match sp_find(ms, "event"@) {
            Some(ValView::Prim(PrimView::Str(ev))) => if ev == "bts:subscribe"@ {
                match sp_find(ms, "data"@) {
                    Some(ValView::Obj(dm)) => match sp_find(dm, "channel"@) {
                        Some(InnerView::Prim(PrimView::Str(ch))) => match spec_channel_from_name(
                            ch,
                        ) {
                            Some(c) => Ok(MessageView::Subscribe { channel: c }),
                            None => Err(RowError::Shape),
                        },
                        _ => Err(RowError::Shape),
                    },
                    _ => Err(RowError::Shape),
                }
            } else if ev == "bts:subscription_succeeded"@ {
                match sp_find(ms, "channel"@) {
                    Some(ValView::Prim(PrimView::Str(ch))) => match spec_channel_from_name(ch) {
                        Some(c) => Ok(MessageView::SubscriptionSucceeded { channel: c }),
                        None => Err(RowError::Shape),
                    },
                    _ => Err(RowError::Shape),
                }
            } else if ev == "data"@ {
                match sp_find(ms, "data"@) {
                    Some(ValView::Obj(dm)) => match sp_order_book(dm) {
                        Ok(ob) => Ok(MessageView::Data { data: ob }),
                        Err(e) => Err(e),
                    },
                    _ => Err(RowError::Shape),
                }
            } else if ev == "bts:error"@ {
                match sp_find(ms, "data"@) {
                    Some(ValView::Obj(dm)) => match sp_find(dm, "message"@) {
                        Some(InnerView::Prim(PrimView::Str(msg))) => match sp_find(dm, "code"@) {
                            Some(InnerView::Prim(PrimView::Null)) => Ok(
                                MessageView::Error { code: None, message: msg },
                            ),
                            Some(InnerView::Prim(PrimView::Num(t))) => if code_ok(t) {
                                Ok(
                                    MessageView::Error {
                                        code: Some(digits_val(t) as u32),
                                        message: msg,
                                    },
                                )
                            } else {
                                Err(RowError::Shape)
                            },
                            _ => Err(RowError::Shape),
                        },
                        _ => Err(RowError::Shape),
                    },
                    _ => Err(RowError::Shape),
                }
            } else {
                Err(RowError::Shape)
            },
            _ => Err(RowError::Shape),
        },
        None => Err(RowError::Shape),
    }
}

impl Message {
    /// Decode one inbound transport frame: a text frame against the message
    /// schema; a ping becomes `Message::Ping` (to be answered with a pong);
    /// any other frame type is refused as unexpected.
    pub fn from_frame(value: Frame) -> (r: Result<Message, BitstampError>)
        ensures
            value matches Frame::Text(s) ==> (match sp_bitstamp_text(s@) {
                Ok(mv) => r matches Ok(m) && m@ == mv,
                Err(RowError::Field(ctx)) => r matches Err(BitstampError::Decoding {
                    context,
                    input,
                }) && context == ctx && input@ == s@,
                Err(RowError::Shape) => r matches Err(BitstampError::Decoding { context, input })
                    && context == DecodeContext::IncomingMessage && input@ == s@,
            }),
            value matches Frame::Ping(d) ==> (r matches Ok(m) && m@ == MessageView::Ping(d@)),
            value is Binary || value is Pong || value is Close ==> r matches Err(
                BitstampError::UnexpectedFrame { .. },
            ),
    {
        match value {
            Frame::Text(s) => Message::from_text(s),
            Frame::Ping(d) => Ok(Message::Ping(d)),
            _ => Err(
                BitstampError::UnexpectedFrame {
                    reason: String::from_str(
                        "Expected a text websocket message, but got another frame type",
                    ),
                },
            ),
        }
    }

    /// Decode one inbound text payload against the message schema.
    pub fn from_text(s: String) -> (r: Result<Message, BitstampError>)
        ensures
            match sp_bitstamp_text(s@) {
                Ok(mv) => r matches Ok(m) && m@ == mv,
                Err(RowError::Field(ctx)) => r matches Err(BitstampError::Decoding {
                    context,
                    input,
                }) && context == ctx && input@ == s@,
                Err(RowError::Shape) => r matches Err(BitstampError::Decoding { context, input })
                    && context == DecodeContext::IncomingMessage && input@ == s@,
            },
    {
        let ms = match crate::json::parse_message(s.as_str()) {
            Some(ms) => ms,
            None => {
                return Err(
                    BitstampError::Decoding { context: DecodeContext::IncomingMessage, input: s },
                );
            },
        };
        let ev_idx = match crate::json::find_val(&ms, "event") {
            Some(i) => i,
            None => {
                return Err(
                    BitstampError::Decoding { context: DecodeContext::IncomingMessage, input: s },
                );
            },
        };
        let is_subscribe: bool;
        let is_succeeded: bool;
        let is_data: bool;
        let is_error: bool;
        match &ms[ev_idx].1 {
            Val::Prim(Prim::Str(ev)) => {
                is_subscribe = crate::text::str_eq(ev.as_str(), "bts:subscribe");
                is_succeeded = crate::text::str_eq(ev.as_str(), "bts:subscription_succeeded");
                is_data = crate::text::str_eq(ev.as_str(), "data");
                is_error = crate::text::str_eq(ev.as_str(), "bts:error");
            },
            _ => {
                return Err(
                    BitstampError::Decoding { context: DecodeContext::IncomingMessage, input: s },
                );
            },
        }
        if is_subscribe {
            let dm = match Message::data_members(&ms) {
                Some(dm) => dm,
                None => {
                    return Err(
                        BitstampError::Decoding {
                            context: DecodeContext::IncomingMessage,
                            input: s,
                        },
                    );
                },
            };
            match Message::channel_member(dm, "channel") {
                Some(c) => Ok(Message::Subscribe { data: ChannelData { channel: c } }),
                None => Err(
                    BitstampError::Decoding { context: DecodeContext::IncomingMessage, input: s },
                ),
            }
        } else if is_succeeded {
            let ch_idx = match crate::json::find_val(&ms, "channel") {
                Some(i) => i,
                None => {
                    return Err(
                        BitstampError::Decoding {
                            context: DecodeContext::IncomingMessage,
                            input: s,
                        },
                    );
                },
            };
            match &ms[ch_idx].1 {
                Val::Prim(Prim::Str(ch)) => match crate::bitstamp::channel::channel_from_name(
                    ch.as_str(),
                ) {
                    Ok(c) => Ok(Message::SubscriptionSucceeded { channel: c }),
                    Err(_) => Err(
                        BitstampError::Decoding {
                            context: DecodeContext::IncomingMessage,
                            input: s,
                        },
                    ),
                },
                _ => Err(
                    BitstampError::Decoding { context: DecodeContext::IncomingMessage, input: s },
                ),
            }
        } else if is_data {
            let dm = match Message::data_members(&ms) {
                Some(dm) => dm,
                None => {
                    return Err(
                        BitstampError::Decoding {
                            context: DecodeContext::IncomingMessage,
                            input: s,
                        },
                    );
                },
            };
            match OrderBookData::from_members(dm, s.as_str()) {
                Ok(data) => Ok(Message::Data { data }),
                Err(e) => Err(e),
            }
        } else if is_error {
            let dm = match Message::data_members(&ms) {
                Some(dm) => dm,
                None => {
                    return Err(
                        BitstampError::Decoding {
                            context: DecodeContext::IncomingMessage,
                            input: s,
                        },
                    );
                },
            };
            let msg_idx = match crate::json::find_inner(dm, "message") {
                Some(i) => i,
                None => {
                    return Err(
                        BitstampError::Decoding {
                            context: DecodeContext::IncomingMessage,
                            input: s,
                        },
                    );
                },
            };
            let message = match &dm[msg_idx].1 {
                Inner::Prim(Prim::Str(m)) => String::from_str(m.as_str()),
                _ => {
                    return Err(
                        BitstampError::Decoding {
                            context: DecodeContext::IncomingMessage,
                            input: s,
                        },
                    );
                },
            };
            let code_idx = match crate::json::find_inner(dm, "code") {
                Some(i) => i,
                None => {
                    return Err(
                        BitstampError::Decoding {
                            context: DecodeContext::IncomingMessage,
                            input: s,
                        },
                    );
                },
            };
            let code: Option<u32> = match &dm[code_idx].1 {
                Inner::Prim(Prim::Null) => None,
                Inner::Prim(Prim::Num(t)) => match parse_u64(t.as_str()) {
                    Some(v) => {
                        if v <= u32::MAX as u64 {
                            Some(v as u32)
                        } else {
                            return Err(
                                BitstampError::Decoding {
                                    context: DecodeContext::IncomingMessage,
                                    input: s,
                                },
                            );
                        }
                    },
                    None => {
                        return Err(
                            BitstampError::Decoding {
                                context: DecodeContext::IncomingMessage,
                                input: s,
                            },
                        );
                    },
                },
                _ => {
                    return Err(
                        BitstampError::Decoding {
                            context: DecodeContext::IncomingMessage,
                            input: s,
                        },
                    );
                },
            };
            Ok(Message::Error { data: ErrorData { code, message } })
        } else {
            Err(BitstampError::Decoding { context: DecodeContext::IncomingMessage, input: s })
        }
    }

    /// The nested members of the top-level `data` object, if it is one.
    fn data_members(ms: &Vec<(String, Val)>) -> (r: Option<&Vec<(String, Inner)>>)
        ensures
            match r {
                Some(dm) => sp_find(crate::json::message_view(ms@), "data"@) == Some(
                    ValView::Obj(crate::json::members_view(dm@)),
                ),
                None => match sp_find(crate::json::message_view(ms@), "data"@) {
                    Some(v) => !(v is Obj),
                    None => true,
                },
            },
    {
        match crate::json::find_val(ms, "data") {
            Some(idx) => match &ms[idx].1 {
                Val::Obj(dm) => Some(dm),
                _ => None,
            },
            None => None,
        }
    }

    /// The channel a nested string member names, if it parses.
    fn channel_member(dm: &Vec<(String, Inner)>, key: &str) -> (r: Option<Channel>)
        ensures
            match r {
                Some(c) => match sp_find(crate::json::members_view(dm@), key@) {
                    Some(InnerView::Prim(PrimView::Str(ch))) => spec_channel_from_name(ch)
                        == Some(c),
                    _ => false,
                },
                None => match sp_find(crate::json::members_view(dm@), key@) {
                    Some(InnerView::Prim(PrimView::Str(ch))) => spec_channel_from_name(ch) is None,
                    Some(v) => true,
                    None => true,
                },
            },
    {
        match crate::json::find_inner(dm, key) {
            Some(idx) => match &dm[idx].1 {
                Inner::Prim(Prim::Str(ch)) => match crate::bitstamp::channel::channel_from_name(
                    ch.as_str(),
                ) {
                    Ok(c) => Some(c),
                    Err(_) => None,
                },
                _ => None,
            },
            None => None,
        }
    }

    /// The request frame that subscribes to a channel.
    pub fn subscribe(channel_type: ChannelType, currency_pair: CurrencyPair) -> (r: Frame)
        ensures
            r matches Frame::Text(s) && s@ == spec_subscribe_payload(
                Channel { channel_type, pair: currency_pair },
            ),
    {
        let c = Channel { channel_type, pair: currency_pair };
        Frame::Text(render_control_payload("bts:subscribe", c))
    }

    /// The request frame that unsubscribes from a channel.
    pub fn unsubscribe(channel_type: ChannelType, currency_pair: CurrencyPair) -> (r: Frame)
        ensures
            r matches Frame::Text(s) && s@ == spec_unsubscribe_payload(
                Channel { channel_type, pair: currency_pair },
            ),
    {
        let c = Channel { channel_type, pair: currency_pair };
        Frame::Text(render_control_payload("bts:unsubscribe", c))
    }
}

/// A sequence free of quotes and backslashes, as a string's content must be.
pub open spec fn no_quotes(t: Seq<char>) -> bool {
    forall|k: int| 0 <= k < t.len() ==> (#[trigger] t[k]) != '"' && t[k] != '\\'
}

/// Where each character of a control payload stands.
proof fn lemma_cp_layout(ev: Seq<char>, ch: Seq<char>)
    ensures
        ({
            let s = spec_control_payload(ev, ch);
            let base = 10 + ev.len() as int;
            let cbase = base + 21 + ch.len() as int;
            &&& s.len() == cbase + 3
            &&& (forall|k: int| 0 <= k < 10 ==> s[k] == ("{\"event\":\""@)[k])
            &&& (forall|k: int| 0 <= k < ev.len() ==> s[10 + k] == ev[k])
            &&& (forall|k: int| 0 <= k < 21 ==> s[base + k] == ("\",\"data\":{\"channel\":\""@)[k])
            &&& (forall|k: int| 0 <= k < ch.len() ==> s[base + 21 + k] == ch[k])
            &&& (forall|k: int| 0 <= k < 3 ==> s[cbase + k] == ("\"}}"@)[k])
        }),
{
    reveal_strlit("{\"event\":\"");
    reveal_strlit("\",\"data\":{\"channel\":\"");
    reveal_strlit("\"}}");
    let s = spec_control_payload(ev, ch);
    assert(("{\"event\":\""@).len() == 10);
    assert(("\",\"data\":{\"channel\":\""@).len() == 21);
    assert(("\"}}"@).len() == 3);
}

/// The event member of a control payload: `"event"` keyed to the event
/// string, parsed from position 1.
#[verifier::rlimit(60)]
proof fn lemma_cp_event(ev: Seq<char>, ch: Seq<char>)
    requires
        no_quotes(ev),
    ensures
        sp_top_member(spec_control_payload(ev, ch), 1) == Some((
            ("event"@, ValView::Prim(PrimView::Str(ev))),
            10 + ev.len() as int + 1,
        )),
{
    reveal_strlit("{\"event\":\"");
    reveal_strlit("\",\"data\":{\"channel\":\"");
    reveal_strlit("event");
    lemma_cp_layout(ev, ch);
    let s = spec_control_payload(ev, ch);
    let base = 10 + ev.len() as int;
    assert(sp_ws(s, 1) == 1);
    crate::json::lemma_str_scan_clean(s, 2, 7);
    assert(s.subrange(2, 7) =~= "event"@);
    assert(sp_string(s, 1) == Some(("event"@, 8int)));
    assert(sp_ws(s, 8) == 8);
    assert(s[8] == ':');
    assert(sp_ws(s, 9) == 9);
    assert(forall|m: int| 10 <= m < base ==> s[m] != '\"' && s[m] != '\\');
    crate::json::lemma_str_scan_clean(s, 10, base);
    assert(s.subrange(10, base) =~= ev);
    assert(sp_string(s, 9) == Some((ev, base + 1)));
    assert(s[9] == '\"');
    assert(sp_prim(s, 9) == Some((PrimView::Str(ev), base + 1)));
    assert(sp_val(s, 9) == Some((ValView::Prim(PrimView::Str(ev)), base + 1)));
}

/// The channel member inside a control payload's data object, parsed from
/// just after the inner `{`.
#[verifier::rlimit(60)]
proof fn lemma_cp_channel_member(ev: Seq<char>, ch: Seq<char>)
    requires
        no_quotes(ch),
    ensures
        sp_member(spec_control_payload(ev, ch), 10 + ev.len() as int + 10) == Some((
            ("channel"@, InnerView::Prim(PrimView::Str(ch))),
            10 + ev.len() as int + 21 + ch.len() as int + 1,
        )),
{
    reveal_strlit("\",\"data\":{\"channel\":\"");
    reveal_strlit("\"}}");
    reveal_strlit("channel");
    lemma_cp_layout(ev, ch);
    let s = spec_control_payload(ev, ch);
    let base = 10 + ev.len() as int;
    let cbase = base + 21 + ch.len() as int;
    assert(s[base + 10] == '\"');
    assert(sp_ws(s, base + 10) == base + 10);
    crate::json::lemma_str_scan_clean(s, base + 11, base + 18);
    assert(s.subrange(base + 11, base + 18) =~= "channel"@);
    assert(sp_string(s, base + 10) == Some(("channel"@, base + 19)));
    assert(sp_ws(s, base + 19) == base + 19);
    assert(s[base + 19] == ':');
    assert(sp_ws(s, base + 20) == base + 20);
    assert(s[base + 20] == '\"');
    assert(forall|m: int| base + 21 <= m < cbase ==> s[m] != '\"' && s[m] != '\\');
    crate::json::lemma_str_scan_clean(s, base + 21, cbase);
    assert(s.subrange(base + 21, cbase) =~= ch);
    assert(sp_string(s, base + 20) == Some((ch, cbase + 1)));
    assert(sp_prim(s, base + 20) == Some((PrimView::Str(ch), cbase + 1)));
    assert(s[base + 20] != '[');
    assert(sp_inner(s, base + 20) == Some((InnerView::Prim(PrimView::Str(ch)), cbase + 1)));
}

/// The data member of a control payload: `"data"` keyed to the one-member
/// channel object, parsed from just after the event member's comma.
#[verifier::rlimit(60)]
proof fn lemma_cp_data(ev: Seq<char>, ch: Seq<char>)
    requires
        no_quotes(ch),
    ensures
        sp_top_member(spec_control_payload(ev, ch), 10 + ev.len() as int + 2) == Some((
            ("data"@, ValView::Obj(seq![("channel"@, InnerView::Prim(PrimView::Str(ch)))])),
            10 + ev.len() as int + 21 + ch.len() as int + 2,
        )),
{
    reveal_strlit("\",\"data\":{\"channel\":\"");
    reveal_strlit("\"}}");
    reveal_strlit("data");
    lemma_cp_layout(ev, ch);
    lemma_cp_channel_member(ev, ch);
    let s = spec_control_payload(ev, ch);
    let base = 10 + ev.len() as int;
    let cbase = base + 21 + ch.len() as int;
    let dm = seq![("channel"@, InnerView::Prim(PrimView::Str(ch)))];
    assert(sp_ws(s, base + 2) == base + 2);
    crate::json::lemma_str_scan_clean(s, base + 3, base + 7);
    assert(s.subrange(base + 3, base + 7) =~= "data"@);
    assert(s[base + 2] == '\"');
    assert(sp_string(s, base + 2) == Some(("data"@, base + 8)));
    assert(sp_ws(s, base + 8) == base + 8);
    assert(s[base + 8] == ':');
    assert(sp_ws(s, base + 9) == base + 9);
    assert(s[base + 9] == '{');
    assert(sp_ws(s, cbase + 1) == cbase + 1);
    assert(s[cbase + 1] == '}');
    assert(sp_obj_rest(s, cbase + 1) == Some((
        Seq::<(Seq<char>, InnerView)>::empty(),
        cbase + 2,
    )));
    assert(sp_ws(s, base + 10) == base + 10);
    assert(s[base + 10] == '\"');
    assert(s[base + 10] != '}');
    assert(sp_obj_members(s, base + 10) == Some((
        seq![("channel"@, InnerView::Prim(PrimView::Str(ch)))] + Seq::<(
            Seq<char>,
            InnerView,
        )>::empty(),
        cbase + 2,
    )));
    assert(seq![("channel"@, InnerView::Prim(PrimView::Str(ch)))] + Seq::<(
        Seq<char>,
        InnerView,
    )>::empty() =~= dm);
    assert(sp_val(s, base + 9) == Some((ValView::Obj(dm), cbase + 2)));
}

/// After the event member, the rest of the top-level object is exactly the
/// data member.
#[verifier::rlimit(100)]
proof fn lemma_cp_rest(ev: Seq<char>, ch: Seq<char>)
    requires
        no_quotes(ch),
    ensures
        sp_top_rest(spec_control_payload(ev, ch), 10 + ev.len() as int + 1) == Some((
            seq![
                (
                    "data"@,
                    ValView::Obj(seq![("channel"@, InnerView::Prim(PrimView::Str(ch)))]),
                ),
            ],
            10 + ev.len() as int + 21 + ch.len() as int + 3,
        )),
{
    reveal_strlit("\",\"data\":{\"channel\":\"");
    reveal_strlit("\"}}");
    lemma_cp_layout(ev, ch);
    lemma_cp_data(ev, ch);
    let s = spec_control_payload(ev, ch);
    let base = 10 + ev.len() as int;
    let cbase = base + 21 + ch.len() as int;
    let dm = seq![("channel"@, InnerView::Prim(PrimView::Str(ch)))];
    let data_member = ("data"@, ValView::Obj(dm));
    assert(sp_ws(s, cbase + 2) == cbase + 2);
    assert(s[cbase + 2] == '}');
    assert(sp_top_rest(s, cbase + 2) == Some((Seq::<(Seq<char>, ValView)>::empty(), cbase + 3)));
    assert(sp_ws(s, base + 1) == base + 1);
    assert(s[base + 1] == ',');
    assert(sp_top_rest(s, base + 1) == Some((
        seq![data_member] + Seq::<(Seq<char>, ValView)>::empty(),
        cbase + 3,
    )));
    assert(seq![data_member] + Seq::<(Seq<char>, ValView)>::empty() =~= seq![data_member]);
}

/// The member list of a control payload: the event member, then the data
/// member.
#[verifier::rlimit(100)]
proof fn lemma_cp_members(ev: Seq<char>, ch: Seq<char>)
    requires
        no_quotes(ev),
        no_quotes(ch),
    ensures
        sp_top_members(spec_control_payload(ev, ch), 1) == Some((
            seq![
                ("event"@, ValView::Prim(PrimView::Str(ev))),
                ("data"@, ValView::Obj(seq![("channel"@, InnerView::Prim(PrimView::Str(ch)))])),
            ],
            10 + ev.len() as int + 21 + ch.len() as int + 3,
        )),
{
    reveal_strlit("{\"event\":\"");
    reveal_strlit("\",\"data\":{\"channel\":\"");
    reveal_strlit("\"}}");
    lemma_cp_event(ev, ch);
    lemma_cp_rest(ev, ch);
    let s = spec_control_payload(ev, ch);
    let base = 10 + ev.len() as int;
    let cbase = base + 21 + ch.len() as int;
    let dm = seq![("channel"@, InnerView::Prim(PrimView::Str(ch)))];
    let event_member = ("event"@, ValView::Prim(PrimView::Str(ev)));
    let data_member = ("data"@, ValView::Obj(dm));
    assert(s.len() == cbase + 3);
    assert(s[1] == ("{\"event\":\""@)[1]);
    assert(sp_ws(s, 1) == 1);
    assert(s[1] == '\"');
    assert(s[1] != '}');
    assert(seq![event_member] + seq![data_member] =~= seq![event_member, data_member]);
    assert(sp_top_members(s, 1) == Some((
        seq![event_member] + seq![data_member],
        cbase + 3,
    )));
}

/// What a control payload parses to: exactly its two members, the event
/// string and the data object holding the channel string.
#[verifier::rlimit(100)]
pub proof fn lemma_control_payload_parse(ev: Seq<char>, ch: Seq<char>)
    requires
        no_quotes(ev),
        no_quotes(ch),
    ensures
        sp_message(spec_control_payload(ev, ch)) == Some(
            seq![
                ("event"@, ValView::Prim(PrimView::Str(ev))),
                ("data"@, ValView::Obj(seq![("channel"@, InnerView::Prim(PrimView::Str(ch)))])),
            ],
        ),
{
    reveal_strlit("{\"event\":\"");
    reveal_strlit("\",\"data\":{\"channel\":\"");
    reveal_strlit("\"}}");
    lemma_cp_members(ev, ch);
    let s = spec_control_payload(ev, ch);
    let base = 10 + ev.len() as int;
    let cbase = base + 21 + ch.len() as int;
    assert(s.len() == cbase + 3);
    assert(s[0] == ("{\"event\":\""@)[0]);
    assert(sp_ws(s, 0) == 0);
    assert(s[0] == '{');
    assert(sp_ws(s, cbase + 3) == cbase + 3);
}

/// Encoding a subscribe request for a channel and decoding the payload gives
/// the subscribe message for that same channel back (round trip).
pub proof fn lemma_subscribe_round_trip(c: Channel)
    ensures
        sp_bitstamp_text(spec_subscribe_payload(c)) == Ok::<MessageView, RowError>(
            MessageView::Subscribe { channel: c },
        ),
{
    reveal_strlit("bts:subscribe");
    reveal_strlit("event");
    reveal_strlit("data");
    reveal_strlit("channel");
    reveal_strlit("live_orders");
    reveal_strlit("detail_order_book");
    let ev = "bts:subscribe"@;
    let ch = spec_channel_name(c);
    assert(ev.len() == 13);
    assert(no_quotes(ev));
    crate::bitstamp::currency_pair::lemma_pair_name_wf(c.pair);
    reveal_strlit("_");
    assert(no_quotes(ch)) by {
        let tn = crate::bitstamp::channel::spec_channel_type_name(c.channel_type);
        let pn = crate::bitstamp::currency_pair::spec_pair_name(c.pair);
        assert(forall|k: int| 0 <= k < tn.len() ==> #[trigger] ch[k] == tn[k]);
        assert(ch[tn.len() as int] == '_');
        assert(forall|k: int|
            tn.len() + 1 <= k < ch.len() ==> #[trigger] ch[k] == pn[k - tn.len() - 1]);
        assert(forall|k: int|
            tn.len() + 1 <= k < ch.len()
                ==> crate::bitstamp::currency_pair::is_name_char(#[trigger] ch[k]));
    }
    lemma_control_payload_parse(ev, ch);
    let ms = seq![
        ("event"@, ValView::Prim(PrimView::Str(ev))),
        ("data"@, ValView::Obj(seq![("channel"@, InnerView::Prim(PrimView::Str(ch)))])),
    ];
    assert(sp_find(ms, "event"@) == Some(ValView::Prim(PrimView::Str(ev))));
    assert("event"@.len() == 5 && "data"@.len() == 4);
    let dm = seq![("channel"@, InnerView::Prim(PrimView::Str(ch)))];
    let tail = ms.drop_first();
    assert(tail =~= seq![("data"@, ValView::Obj(dm))]);
    assert(sp_find(tail, "data"@) == Some(ValView::Obj(dm)));
    assert(ms[0].0 != "data"@);
    assert(sp_find(ms, "data"@) == sp_find(tail, "data"@));
    assert(sp_find(dm, "channel"@) == Some(InnerView::Prim(PrimView::Str(ch))));
    crate::bitstamp::channel::lemma_channel_round_trip(c);
}

} // verus!
