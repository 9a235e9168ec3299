//! The book-ticker subscribe protocol: numbered subscribe/unsubscribe
//! requests and the ticker update they elicit.

use vstd::prelude::*;

use crate::decimal::{all_digits, digits_val, render_u64};

verus! {

/// Generates the incremental ids that number a connection's requests.
/// Scoped to one adapter instance, never shared.
pub struct Ids {
    pub next_id: u64,
}

impl Ids {
    /// Ids start at 0.
    pub fn new() -> (r: Ids)
        ensures
            r.next_id == 0,
    {
        Ids { next_id: 0 }
    }

    /// Returns the next id and advances the counter.
    pub fn next(&mut self) -> (r: u64)
        requires
            old(self).next_id < u64::MAX,
        ensures
            r == old(self).next_id,
            final (self).next_id == old(self).next_id + 1,
    {
        let result = self.next_id;
        self.next_id = self.next_id + 1;
        result
    }
}

/// The method a request names.
#[derive(Clone, Copy, PartialEq, Eq, Structural, Debug)]
pub enum Method {
    Subscribe,
    Unsubscribe,
}

/// The wire name of a method.
pub open spec fn spec_method_name(m: Method) -> Seq<char> {
    match m {
        Method::Subscribe => "SUBSCRIBE"@,
        Method::Unsubscribe => "UNSUBSCRIBE"@,
    }
}

/// Render a method as its wire name.
pub fn method_name(m: Method) -> (r: &'static str)
    ensures
        r@ == spec_method_name(m),
{
    match m {
        Method::Subscribe => "SUBSCRIBE",
        Method::Unsubscribe => "UNSUBSCRIBE",
    }
}

/// One outbound request: a method applied to the named streams, numbered by
/// the connection's id counter.
#[derive(Clone, PartialEq, Eq, Debug)]
pub struct Message {
    pub method: Method,
    pub params: Vec<&'static str>,
    pub id: u64,
}

impl Message {
    /// The request that subscribes to a stream (for example
    /// `ETHBTC@bookTicker`).
    pub fn subscribe(stream_name: &'static str, id: u64) -> (r: Message)
        ensures
            r.method == Method::Subscribe,
            r.params@.len() == 1,
            r.params@[0]@ == stream_name@,
            r.id == id,
    {
        Message { method: Method::Subscribe, params: vec![stream_name], id }
    }

    /// The request that unsubscribes from a stream.
    pub fn unsubscribe(stream_name: &'static str, id: u64) -> (r: Message)
        ensures
            r.method == Method::Unsubscribe,
            r.params@.len() == 1,
            r.params@[0]@ == stream_name@,
            r.id == id,
    {
        Message { method: Method::Unsubscribe, params: vec![stream_name], id }
    }

    /// The JSON text of a one-stream request:
    /// `{"method":"<method>","params":["<stream>"],"id":<id>}`.
    pub fn to_json(&self) -> (r: String)
        requires
            self.params@.len() == 1,
        ensures
            exists|digits: Seq<char>|
                all_digits(digits) && digits_val(digits) == self.id && digits.len() >= 1 && (
                digits.len() > 1 ==> digits[0] != '0') && r@ == "{\"method\":\""@
                    + spec_method_name(self.method) + "\",\"params\":[\""@ + self.params@[0]@
                    + "\"],\"id\":"@ + digits + "}"@,
    {
        let mut s = String::from_str("{\"method\":\"");
        s.append(method_name(self.method));
        s.append("\",\"params\":[\"");
        s.append(self.params[0]);
        s.append("\"],\"id\":");
        let digits = render_u64(self.id);
        s.append(digits.as_str());
        s.append("}");
        proof {
            assert(s@ =~= "{\"method\":\""@ + spec_method_name(self.method) + "\",\"params\":[\""@
                + self.params@[0]@ + "\"],\"id\":"@ + digits@ + "}"@);
        }
        s
    }
}

/// One book-ticker update: the best bid and ask of one symbol, with the
/// exchange's decimal strings kept as received.
#[derive(Clone, PartialEq, Eq, Debug)]
pub struct BookTicker {
    /// Order book update id.
    pub update_id: u64,
    pub symbol: String,
    pub best_bid_price: String,
    pub best_bid_qty: String,
    pub best_ask_price: String,
    pub best_ask_qty: String,
}

} // verus!
