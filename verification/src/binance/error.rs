//! Errors of the binance feed adapter.

use vstd::prelude::*;

verus! {

/// An error of the binance adapter.
#[derive(Clone, PartialEq, Eq, Debug)]
pub enum BinanceError {
    /// Establishing the transport connection failed; keeps the target url
    /// and what the transport reported.
    Connect { url: String, detail: String },
    /// The connection stood, but reading a message later failed.
    Message { detail: String },
    /// An inbound payload did not parse against the depth schema; keeps the
    /// offending raw payload.
    Json { original: String },
    /// An inbound frame of a type the adapter does not handle.
    UnexpectedFrame { detail: String },
}

} // verus!
