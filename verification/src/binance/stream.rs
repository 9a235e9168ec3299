//! Frame handling for the binance depth stream: decoding inbound text
//! frames against the partial-depth schema and deciding what each frame
//! type elicits.  Opening the connection and pumping frames stays outside
//! the library.

use vstd::prelude::*;

use crate::binance::error::BinanceError;
use crate::binance::model::{Depth, Price};
use crate::decimal::{fixed_atoms, parse_fixed, valid_fixed};
use crate::frame::Frame;
use crate::json::{sp_find, sp_message, PrimView, ValView};

verus! {

/// A decimal string that fits the fixed point.
pub open spec fn fixed_ok(t: Seq<char>) -> bool {
    valid_fixed(t) && fixed_atoms(t) <= u64::MAX
}

/// The depth row one wire row denotes: `[price, quantity]`.
pub open spec fn sp_depth_row(row: Seq<Seq<char>>) -> Option<Price> {
    if row.len() == 2 && fixed_ok(row[0]) && fixed_ok(row[1]) {
        Some(Price { amount: fixed_atoms(row[0]) as u64, quantity: fixed_atoms(row[1]) as u64 })
    } else {
        None
    }
}

/// The depth rows from `i` on, or nothing if any row is bad.
pub open spec fn sp_depth_rows_at(rows: Seq<Seq<Seq<char>>>, i: int) -> Option<Seq<Price>>
    decreases rows.len() - i,
{
    if !(0 <= i < rows.len()) {
        Some(Seq::empty())
    } else {
        match sp_depth_row(rows[i]) {
            Some(p) => match sp_depth_rows_at(rows, i + 1) {
                Some(rest) => Some(seq![p] + rest),
                None => None,
            },
            None => None,
        }
    }
}

/// The bid and ask rows a depth payload denotes, if it matches the schema.
pub open spec fn sp_depth(s: Seq<char>) -> Option<(Seq<Price>, Seq<Price>)> {
    match sp_message(s) {
        Some(ms) => match sp_find(ms, "bids"@) {
            Some(ValView::Rows(bid_rows)) => match sp_depth_rows_at(bid_rows, 0) {
                Some(bids) => match sp_find(ms, "asks"@) {
                    Some(ValView::Rows(ask_rows)) => match sp_depth_rows_at(ask_rows, 0) {
                        Some(asks) => Some((bids, asks)),
                        None => None,
                    },
                    _ => None,
                },
                None => None,
            },
            _ => None,
        },
        None => None,
    }
}

/// Decode the depth rows from `i` on.
fn depth_rows_from(rows: &Vec<Vec<String>>, i: usize) -> (r: Option<Vec<Price>>)
    requires
        i <= rows@.len(),
    ensures
        match r {
            Some(v) => sp_depth_rows_at(crate::json::rows_view(rows@), i as int) == Some(v@),
            None => sp_depth_rows_at(crate::json::rows_view(rows@), i as int) is None,
        },
    decreases rows@.len() - i,
{
    let ghost rv = crate::json::rows_view(rows@);
    if i >= rows.len() {
        proof {
            assert(sp_depth_rows_at(rv, i as int) == Some(Seq::<Price>::empty()));
        }
        return Some(Vec::new());
    }
    let row = &rows[i];
    proof {
        assert(rv[i as int] == rows@[i as int].deep_view());
        assert(rows@[i as int].deep_view().len() == rows@[i as int]@.len());
    }
    if row.len() != 2 {
        return None;
    }
    proof {
        assert(rv[i as int][0] == rows@[i as int]@[0]@);
        assert(rv[i as int][1] == rows@[i as int]@[1]@);
    }
    let amount = match parse_fixed(row[0].as_str()) {
        Some(v) => v,
        None => {
            return None;
        },
    };
    let quantity = match parse_fixed(row[1].as_str()) {
        Some(v) => v,
        None => {
            return None;
        },
    };
    let p = Price { amount, quantity };
    match depth_rows_from(rows, i + 1) {
        Some(rest) => {
            let mut out = rest;
            out.insert(0, p);
            proof {
                assert(out@.drop_first() =~= rest@);
                assert(out@ =~= seq![p] + rest@);
            }
            Some(out)
        },
        None => None,
    }
}

/// Decode one depth payload.  Returns exactly the snapshot the payload
/// denotes, stamped with the caller's receive time; a payload that does not
/// match the schema is refused with the raw text kept for diagnosis.
pub fn decode_depth(s: String, now_micros: u64) -> (r: Result<Depth, BinanceError>)
    ensures
        match sp_depth(s@) {
            Some((bids, asks)) => r matches Ok(d) && d@.bids == bids && d@.asks == asks
                && d@.timestamp_micros == now_micros,
            None => r matches Err(BinanceError::Json { original }) && original@ == s@,
        },
{
    let ms = match crate::json::parse_message(s.as_str()) {
        Some(ms) => ms,
        None => {
            return Err(BinanceError::Json { original: s });
        },
    };
    let bids = match crate::json::find_val(&ms, "bids") {
        Some(idx) => match &ms[idx].1 {
            crate::json::Val::Rows(rows) => match depth_rows_from(rows, 0) {
                Some(v) => v,
                None => {
                    return Err(BinanceError::Json { original: s });
                },
            },
            _ => {
                return Err(BinanceError::Json { original: s });
            },
        },
        None => {
            return Err(BinanceError::Json { original: s });
        },
    };
    let asks = match crate::json::find_val(&ms, "asks") {
        Some(idx) => match &ms[idx].1 {
            crate::json::Val::Rows(rows) => match depth_rows_from(rows, 0) {
                Some(v) => v,
                None => {
                    return Err(BinanceError::Json { original: s });
                },
            },
            _ => {
                return Err(BinanceError::Json { original: s });
            },
        },
        None => {
            return Err(BinanceError::Json { original: s });
        },
    };
    Ok(Depth { timestamp_micros: now_micros, bids, asks })
}

/// What one inbound frame elicits from the depth stream.
pub enum FrameStep {
    /// Deliver this result to the consumer.
    Yield(Result<Depth, BinanceError>),
    /// Send this frame back on the connection (a pong for a ping).
    Reply(Frame),
}

/// Decide what one inbound frame elicits: a text frame yields its decoded
/// snapshot (or the decode error), a ping elicits a pong of the same bytes,
/// and any other frame type fails the stream as unexpected.
pub fn handle_frame(frame: Frame, now_micros: u64) -> (r: FrameStep)
    ensures
        frame matches Frame::Text(s) ==> (match sp_depth(s@) {
            Some((bids, asks)) => r matches FrameStep::Yield(Ok(d)) && d@.bids == bids && d@.asks
                == asks && d@.timestamp_micros == now_micros,
            None => r matches FrameStep::Yield(Err(BinanceError::Json { original })) && original@
                == s@,
        }),
        frame matches Frame::Ping(d) ==> (r matches FrameStep::Reply(f) && f matches Frame::Pong(e)
            && e@ == d@),
        frame is Binary || frame is Pong || frame is Close ==> r matches FrameStep::Yield(
            Err(BinanceError::UnexpectedFrame { .. }),
        ),
{
    match frame {
        Frame::Text(s) => FrameStep::Yield(decode_depth(s, now_micros)),
        Frame::Ping(d) => FrameStep::Reply(Frame::Pong(d)),
        _ => FrameStep::Yield(
            Err(
                BinanceError::UnexpectedFrame {
                    detail: String::from_str("Expected a text frame, but got another frame type"),
                },
            ),
        ),
    }
}

} // verus!
