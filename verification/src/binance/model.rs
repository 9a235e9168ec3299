//! The partial market-depth snapshot binance streams: rows of
//! `[price, quantity]` decimal strings for each side.

use vstd::prelude::*;

verus! {

/// One depth row: the price and the quantity standing at it, in fixed-point
/// atoms (see `crate::decimal`).
#[derive(Clone, Copy, PartialEq, Eq, Structural, Debug)]
pub struct Price {
    pub amount: u64,
    pub quantity: u64,
}

/// One decoded depth snapshot: all bid and ask rows of one update message,
/// in wire order, stamped with the receive time in microseconds since the
/// epoch.
#[derive(Clone, PartialEq, Eq, Debug)]
pub struct Depth {
    pub timestamp_micros: u64,
    pub bids: Vec<Price>,
    pub asks: Vec<Price>,
}

/// The mathematical value of a `Depth`.
pub struct DepthView {
    pub timestamp_micros: u64,
    pub bids: Seq<Price>,
    pub asks: Seq<Price>,
}

impl View for Depth {
    type V = DepthView;

    open spec fn view(&self) -> DepthView {
        DepthView {
            timestamp_micros: self.timestamp_micros,
            bids: self.bids@,
            asks: self.asks@,
        }
    }
}

} // verus!
