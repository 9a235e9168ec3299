//! The detail-order-book snapshot bitstamp sends: rows of
//! `[price, quantity, order id]` decimal strings for each side, with a
//! microsecond timestamp.

use vstd::prelude::*;

use crate::bitstamp::error::{BitstampError, DecodeContext};
use crate::decimal::{all_digits, digits_val, fixed_atoms, parse_fixed, parse_u64, valid_fixed};
use crate::json::{sp_find, sp_message, Inner, InnerView, Prim, PrimView, Val, ValView};

verus! {

/// One order-book row: price and quantity in fixed-point atoms
/// (see `crate::decimal`), and the exchange-assigned order id.
#[derive(Clone, Copy, PartialEq, Eq, Structural, Debug)]
pub struct Price {
    pub price: u64,
    pub quantity: u64,
    pub order_id: u64,
}

/// One decoded depth snapshot: all bid and ask rows of one update message,
/// in wire order, and the update's timestamp in microseconds since the epoch.
#[derive(Clone, PartialEq, Eq, Debug)]
pub struct OrderBookData {
    pub timestamp_micros: u64,
    pub bids: Vec<Price>,
    pub asks: Vec<Price>,
}

/// The mathematical value of an `OrderBookData`.
pub struct OrderBookView {
    pub timestamp_micros: u64,
    pub bids: Seq<Price>,
    pub asks: Seq<Price>,
}

impl View for OrderBookData {
    type V = OrderBookView;

    open spec fn view(&self) -> OrderBookView {
        OrderBookView {
            timestamp_micros: self.timestamp_micros,
            bids: self.bids@,
            asks: self.asks@,
        }
    }
}

/// What a failed decode step is: a named field that did not parse, or a
/// payload whose shape does not match the schema at all.
#[derive(Clone, Copy, PartialEq, Eq, Structural, Debug)]
pub enum RowError {
    Field(DecodeContext),
    Shape,
}

/// A decimal string that fits the fixed point.
pub open spec fn fixed_ok(t: Seq<char>) -> bool {
    valid_fixed(t) && fixed_atoms(t) <= u64::MAX
}

/// A digit string that fits a `u64`.
pub open spec fn u64_ok(t: Seq<char>) -> bool {
    all_digits(t) && t.len() > 0 && digits_val(t) <= u64::MAX
}

/// The price level one wire row denotes: `[price, quantity, order id]`, each
/// field checked in that order, the first bad one named.
pub open spec fn sp_price_row(row: Seq<Seq<char>>) -> Result<Price, RowError> {
    if row.len() != 3 {
        Err(RowError::Shape)
    } else if !fixed_ok(row[0]) {
        Err(RowError::Field(DecodeContext::OrderBookPrice))
    } else if !fixed_ok(row[1]) {
        Err(RowError::Field(DecodeContext::OrderBookQuantity))
    } else if !u64_ok(row[2]) {
        Err(RowError::Field(DecodeContext::OrderBookOrderId))
    } else {
        Ok(
            Price {
                price: fixed_atoms(row[0]) as u64,
                quantity: fixed_atoms(row[1]) as u64,
                order_id: digits_val(row[2]) as u64,
            },
        )
    }
}

/// The price levels of the rows from `i` on; the first bad row's error wins.
pub open spec fn sp_price_rows_at(rows: Seq<Seq<Seq<char>>>, i: int) -> Result<
    Seq<Price>,
    RowError,
>
    decreases rows.len() - i,
{
    if !(0 <= i < rows.len()) {
        Ok(Seq::empty())
    } else {
        match sp_price_row(rows[i]) {
            Ok(p) => match sp_price_rows_at(rows, i + 1) {
                Ok(rest) => Ok(seq![p] + rest),
                Err(e) => Err(e),
            },
            Err(e) => Err(e),
        }
    }
}

/// The price levels of all rows.
pub open spec fn sp_price_rows(rows: Seq<Seq<Seq<char>>>) -> Result<Seq<Price>, RowError> {
    sp_price_rows_at(rows, 0)
}

/// The order book an update's `data` members denote: its `bids` rows, then
/// its `asks` rows, then its `microtimestamp`, the first failure winning.
pub open spec fn sp_order_book(ms: Seq<(Seq<char>, InnerView)>) -> Result<
    OrderBookView,
    RowError,
> {
    match sp_find(ms, "bids"@) {
        Some(InnerView::Rows(bid_rows)) => match sp_price_rows(bid_rows) {
            Ok(bids) => match sp_find(ms, "asks"@) {
                Some(InnerView::Rows(ask_rows)) => match sp_price_rows(ask_rows) {
                    Ok(asks) => match sp_find(ms, "microtimestamp"@) {
                        Some(InnerView::Prim(PrimView::Str(t))) => if u64_ok(t) {
                            Ok(
                                OrderBookView {
                                    timestamp_micros: digits_val(t) as u64,
                                    bids,
                                    asks,
                                },
                            )
                        } else {
                            Err(RowError::Field(DecodeContext::Microtimestamp))
                        },
                        _ => Err(RowError::Shape),
                    },
                    Err(e) => Err(e),
                },
                _ => Err(RowError::Shape),
            },
            Err(e) => Err(e),
        },
        _ => Err(RowError::Shape),
    }
}

/// Decode the rows from `i` on into price levels.
fn price_rows_from(rows: &Vec<Vec<String>>, i: usize) -> (r: Result<Vec<Price>, RowError>)
    requires
        i <= rows@.len(),
    ensures
        match r {
            Ok(v) => sp_price_rows_at(crate::json::rows_view(rows@), i as int) == Ok::<
                Seq<Price>,
                RowError,
            >(v@),
            Err(e) => sp_price_rows_at(crate::json::rows_view(rows@), i as int) == Err::<
                Seq<Price>,
                RowError,
            >(e),
        },
    decreases rows@.len() - i,
{
    let ghost rv = crate::json::rows_view(rows@);
    if i >= rows.len() {
        proof {
            assert(sp_price_rows_at(rv, i as int) == Ok::<Seq<Price>, RowError>(Seq::empty()));
        }
        return Ok(Vec::new());
    }
    let row = &rows[i];
    proof {
        assert(rv[i as int] == rows@[i as int].deep_view());
        assert(rows@[i as int].deep_view().len() == rows@[i as int]@.len());
    }
    if row.len() != 3 {
        return Err(RowError::Shape);
    }
    proof {
        assert(rv[i as int][0] == rows@[i as int]@[0]@);
        assert(rv[i as int][1] == rows@[i as int]@[1]@);
        assert(rv[i as int][2] == rows@[i as int]@[2]@);
    }
    let price = match parse_fixed(row[0].as_str()) {
        Some(v) => v,
        None => {
            return Err(RowError::Field(DecodeContext::OrderBookPrice));
        },
    };
    let quantity = match parse_fixed(row[1].as_str()) {
        Some(v) => v,
        None => {
            return Err(RowError::Field(DecodeContext::OrderBookQuantity));
        },
    };
    let order_id = match parse_u64(row[2].as_str()) {
        Some(v) => v,
        None => {
            return Err(RowError::Field(DecodeContext::OrderBookOrderId));
        },
    };
    let p = Price { price, quantity, order_id };
    match price_rows_from(rows, i + 1) {
        Ok(rest) => {
            let mut out = rest;
            out.insert(0, p);
            proof {
                assert(out@.drop_first() =~= rest@);
                assert(out@ =~= seq![p] + rest@);
            }
            Ok(out)
        },
        Err(e) => Err(e),
    }
}

/// A top-level member value seen as a nested one: the same scalar or row
/// list; a nested object has no such reading.
pub open spec fn sp_val_inner(v: ValView) -> Option<InnerView> {
    match v {
        ValView::Prim(p) => Some(InnerView::Prim(p)),
        ValView::Rows(r) => Some(InnerView::Rows(r)),
        ValView::Obj(_) => None,
    }
}

/// All top-level members from `i` on, read as nested members.
pub open spec fn sp_vals_inners_at(ms: Seq<(Seq<char>, ValView)>, i: int) -> Option<
    Seq<(Seq<char>, InnerView)>,
>
    decreases ms.len() - i,
{
    if !(0 <= i < ms.len()) {
        Some(Seq::empty())
    } else {
        match sp_val_inner(ms[i].1) {
            Some(v) => match sp_vals_inners_at(ms, i + 1) {
                Some(rest) => Some(seq![(ms[i].0, v)] + rest),
                None => None,
            },
            None => None,
        }
    }
}

/// The order book a standalone JSON text denotes: the object's own members
/// read as an update's `data` members.
pub open spec fn sp_order_book_text(s: Seq<char>) -> Result<OrderBookView, RowError> {
    match sp_message(s) {
        Some(ms) => match sp_vals_inners_at(ms, 0) {
            Some(im) => sp_order_book(im),
            None => Err(RowError::Shape),
        },
        None => Err(RowError::Shape),
    }
}

/// Read top-level members as nested members, from `i` on.
fn vals_to_inners(ms: &Vec<(String, Val)>, i: usize) -> (r: Option<Vec<(String, Inner)>>)
    requires
        i <= ms@.len(),
    ensures
        match r {
            Some(im) => sp_vals_inners_at(crate::json::message_view(ms@), i as int) == Some(
                crate::json::members_view(im@),
            ),
            None => sp_vals_inners_at(crate::json::message_view(ms@), i as int) is None,
        },
    decreases ms@.len() - i,
{
    let ghost mv = crate::json::message_view(ms@);
    if i >= ms.len() {
        let out: Vec<(String, Inner)> = Vec::new();
        proof {
            assert(crate::json::members_view(out@) =~= Seq::<(Seq<char>, InnerView)>::empty());
        }
        return Some(out);
    }
    proof {
        assert(mv[i as int] == (ms@[i as int].0@, ms@[i as int].1@));
    }
    let key = String::from_str(ms[i].0.as_str());
    let inner = match &ms[i].1 {
        Val::Prim(p) => Inner::Prim(copy_prim(p)),
        Val::Rows(rows) => Inner::Rows(clone_rows(rows)),
        Val::Obj(_) => {
            return None;
        },
    };
    proof {
        assert(inner@ == sp_val_inner(ms@[i as int].1@)->0);
    }
    match vals_to_inners(ms, i + 1) {
        Some(rest) => {
            let ghost m0 = (key@, inner@);
            let mut out = rest;
            out.insert(0, (key, inner));
            proof {
                assert(out@.drop_first() =~= rest@);
                assert(crate::json::members_view(out@) =~= seq![m0] + crate::json::members_view(
                    rest@,
                ));
            }
            Some(out)
        },
        None => None,
    }
}

/// Copy a scalar.
fn copy_prim(p: &Prim) -> (r: Prim)
    ensures
        r@ == p@,
{
    match p {
        Prim::Null => Prim::Null,
        Prim::Bool(b) => Prim::Bool(*b),
        Prim::Num(t) => Prim::Num(String::from_str(t.as_str())),
        Prim::Str(t) => Prim::Str(String::from_str(t.as_str())),
    }
}

/// Copy a row list.
fn clone_rows(rows: &Vec<Vec<String>>) -> (r: Vec<Vec<String>>)
    ensures
        crate::json::rows_view(r@) == crate::json::rows_view(rows@),
{
    let mut out: Vec<Vec<String>> = Vec::new();
    let mut i: usize = 0;
    while i < rows.len()
        invariant
            0 <= i <= rows@.len(),
            out@.len() == i,
            forall|k: int|
                0 <= k < i ==> crate::json::rows_view(out@)[k] == crate::json::rows_view(
                    rows@,
                )[k],
        decreases rows@.len() - i,
    {
        let row = &rows[i];
        let mut new_row: Vec<String> = Vec::new();
        let mut j: usize = 0;
        while j < row.len()
            invariant
                0 <= j <= row@.len(),
                new_row@.len() == j,
                forall|k: int| 0 <= k < j ==> #[trigger] new_row@[k]@ == row@[k]@,
            decreases row@.len() - j,
        {
            new_row.push(String::from_str(row[j].as_str()));
            j = j + 1;
        }
        proof {
            assert(new_row.deep_view() =~= rows@[i as int].deep_view());
        }
        out.push(new_row);
        i = i + 1;
    }
    proof {
        assert(crate::json::rows_view(out@) =~= crate::json::rows_view(rows@));
    }
    out
}

impl Price {
    /// Render this level as its wire row, `[price, quantity, order id]`.
    /// The row decodes back to this very level.
    pub fn to_row(&self) -> (r: Vec<String>)
        ensures
            sp_price_row(r.deep_view()) == Ok::<Price, RowError>(*self),
    {
        let mut row: Vec<String> = Vec::new();
        row.push(crate::decimal::render_fixed(self.price));
        row.push(crate::decimal::render_fixed(self.quantity));
        row.push(crate::decimal::render_u64(self.order_id));
        proof {
            assert(row.deep_view().len() == 3);
            assert(row.deep_view()[0] == row@[0]@);
            assert(row.deep_view()[1] == row@[1]@);
            assert(row.deep_view()[2] == row@[2]@);
        }
        row
    }
}

/// Rows that each decode to the matching level decode, as a list, to the
/// whole level list.
proof fn lemma_rows_round_trip(rows: Seq<Seq<Seq<char>>>, levels: Seq<Price>, k: int)
    requires
        0 <= k <= rows.len() == levels.len(),
        forall|i: int|
            0 <= i < rows.len() ==> sp_price_row(#[trigger] rows[i]) == Ok::<Price, RowError>(
                levels[i],
            ),
    ensures
        sp_price_rows_at(rows, k) == Ok::<Seq<Price>, RowError>(levels.skip(k)),
    decreases rows.len() - k,
{
    if k == rows.len() {
        assert(levels.skip(k) =~= Seq::<Price>::empty());
    } else {
        lemma_rows_round_trip(rows, levels, k + 1);
        assert(seq![levels[k]] + levels.skip(k + 1) =~= levels.skip(k));
    }
}

impl OrderBookData {
    /// Render this book as its wire parts: the microtimestamp string and the
    /// bid and ask row lists.  Every part decodes back to what it came from.
    pub fn to_raw(&self) -> (r: (String, Vec<Vec<String>>, Vec<Vec<String>>))
        ensures
            all_digits(r.0@) && digits_val(r.0@) == self.timestamp_micros,
            sp_price_rows(crate::json::rows_view(r.1@)) == Ok::<Seq<Price>, RowError>(self.bids@),
            sp_price_rows(crate::json::rows_view(r.2@)) == Ok::<Seq<Price>, RowError>(self.asks@),
    {
        let micro = crate::decimal::render_u64(self.timestamp_micros);
        let mut bids: Vec<Vec<String>> = Vec::new();
        let mut i: usize = 0;
        while i < self.bids.len()
            invariant
                0 <= i <= self.bids@.len(),
                bids@.len() == i,
                forall|k: int|
                    0 <= k < i ==> sp_price_row(crate::json::rows_view(bids@)[k]) == Ok::<
                        Price,
                        RowError,
                    >(self.bids@[k]),
            decreases self.bids@.len() - i,
        {
            let row = self.bids[i].to_row();
            bids.push(row);
            i = i + 1;
        }
        let mut asks: Vec<Vec<String>> = Vec::new();
        let mut j: usize = 0;
        while j < self.asks.len()
            invariant
                0 <= j <= self.asks@.len(),
                asks@.len() == j,
                forall|k: int|
                    0 <= k < j ==> sp_price_row(crate::json::rows_view(asks@)[k]) == Ok::<
                        Price,
                        RowError,
                    >(self.asks@[k]),
            decreases self.asks@.len() - j,
        {
            let row = self.asks[j].to_row();
            asks.push(row);
            j = j + 1;
        }
        proof {
            lemma_rows_round_trip(crate::json::rows_view(bids@), self.bids@, 0);
            assert(self.bids@.skip(0) =~= self.bids@);
            lemma_rows_round_trip(crate::json::rows_view(asks@), self.asks@, 0);
            assert(self.asks@.skip(0) =~= self.asks@);
        }
        (micro, bids, asks)
    }

    /// Decode a standalone order-book JSON text: the object's own members
    /// are the update's `data` members.
    pub fn from_text(s: &str) -> (r: Result<OrderBookData, BitstampError>)
        ensures
            match sp_order_book_text(s@) {
                Ok(obv) => r matches Ok(ob) && ob@ == obv,
                Err(RowError::Field(ctx)) => r matches Err(BitstampError::Decoding {
                    context,
                    input,
                }) && context == ctx && input@ == s@,
                Err(RowError::Shape) => r matches Err(BitstampError::Decoding { context, input })
                    && context == DecodeContext::IncomingMessage && input@ == s@,
            },
    {
        let ms = match crate::json::parse_message(s) {
            Some(ms) => ms,
            None => {
                return Err(
                    BitstampError::Decoding {
                        context: DecodeContext::IncomingMessage,
                        input: String::from_str(s),
                    },
                );
            },
        };
        let im = match vals_to_inners(&ms, 0) {
            Some(im) => im,
            None => {
                return Err(
                    BitstampError::Decoding {
                        context: DecodeContext::IncomingMessage,
                        input: String::from_str(s),
                    },
                );
            },
        };
        OrderBookData::from_members(&im, s)
    }

    /// Decode the `data` members of an order-book update.  Returns exactly
    /// the book the members denote; a field that does not parse names its
    /// context and keeps the raw payload, and a payload of the wrong shape
    /// is reported against the message as a whole.
    pub fn from_members(ms: &Vec<(String, Inner)>, raw: &str) -> (r: Result<
        OrderBookData,
        BitstampError,
    >)
        ensures
            match sp_order_book(crate::json::members_view(ms@)) {
                Ok(obv) => r matches Ok(ob) && ob@ == obv,
                Err(RowError::Field(ctx)) => r matches Err(BitstampError::Decoding {
                    context,
                    input,
                }) && context == ctx && input@ == raw@,
                Err(RowError::Shape) => r matches Err(BitstampError::Decoding { context, input })
                    && context == DecodeContext::IncomingMessage && input@ == raw@,
            },
    {
        let bids = match crate::json::find_inner(ms, "bids") {
            Some(idx) => match &ms[idx].1 {
                Inner::Rows(rows) => match price_rows_from(rows, 0) {
                    Ok(v) => v,
                    Err(RowError::Field(ctx)) => {
                        return Err(
                            BitstampError::Decoding { context: ctx, input: String::from_str(raw) },
                        );
                    },
                    Err(RowError::Shape) => {
                        return Err(
                            BitstampError::Decoding {
                                context: DecodeContext::IncomingMessage,
                                input: String::from_str(raw),
                            },
                        );
                    },
                },
                _ => {
                    return Err(
                        BitstampError::Decoding {
                            context: DecodeContext::IncomingMessage,
                            input: String::from_str(raw),
                        },
                    );
                },
            },
            None => {
                return Err(
                    BitstampError::Decoding {
                        context: DecodeContext::IncomingMessage,
                        input: String::from_str(raw),
                    },
                );
            },
        };
        let asks = match crate::json::find_inner(ms, "asks") {
            Some(idx) => match &ms[idx].1 {
                Inner::Rows(rows) => match price_rows_from(rows, 0) {
                    Ok(v) => v,
                    Err(RowError::Field(ctx)) => {
                        return Err(
                            BitstampError::Decoding { context: ctx, input: String::from_str(raw) },
                        );
                    },
                    Err(RowError::Shape) => {
                        return Err(
                            BitstampError::Decoding {
                                context: DecodeContext::IncomingMessage,
                                input: String::from_str(raw),
                            },
                        );
                    },
                },
                _ => {
                    return Err(
                        BitstampError::Decoding {
                            context: DecodeContext::IncomingMessage,
                            input: String::from_str(raw),
                        },
                    );
                },
            },
            None => {
                return Err(
                    BitstampError::Decoding {
                        context: DecodeContext::IncomingMessage,
                        input: String::from_str(raw),
                    },
                );
            },
        };
        let timestamp_micros = match crate::json::find_inner(ms, "microtimestamp") {
            Some(idx) => match &ms[idx].1 {
                Inner::Prim(crate::json::Prim::Str(t)) => match parse_u64(t.as_str()) {
                    Some(v) => v,
                    None => {
                        return Err(
                            BitstampError::Decoding {
                                context: DecodeContext::Microtimestamp,
                                input: String::from_str(raw),
                            },
                        );
                    },
                },
                _ => {
                    return Err(
                        BitstampError::Decoding {
                            context: DecodeContext::IncomingMessage,
                            input: String::from_str(raw),
                        },
                    );
                },
            },
            None => {
                return Err(
                    BitstampError::Decoding {
                        context: DecodeContext::IncomingMessage,
                        input: String::from_str(raw),
                    },
                );
            },
        };
        Ok(OrderBookData { timestamp_micros, bids, asks })
    }
}

} // verus!
