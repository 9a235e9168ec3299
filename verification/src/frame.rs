//! The canonical transport frame.
//!
//! A connection to an exchange is a duplex message channel; what travels on
//! it is one of these frames.  The transport itself (sockets, TLS, the
//! websocket protocol) lives outside the library; callers convert the
//! transport's own message type to and from this one at the boundary.

use vstd::prelude::*;

verus! {

/// One inbound or outbound transport frame.
#[derive(Debug, Clone, PartialEq, Eq)]
pub enum Frame {
    /// A text payload (every data and control message of both exchanges).
    Text(String),
    /// A binary payload (no exchange schema uses one).
    Binary(Vec<u8>),
    /// A protocol-level ping, answered with a pong carrying the same bytes.
    Ping(Vec<u8>),
    /// A protocol-level pong.
    Pong(Vec<u8>),
    /// The peer closed the connection.
    Close,
}

} // verus!
