//! Consolidates order-book depth from multiple cryptocurrency exchanges into
//! a single ranked best-bid/ask summary.
//!
//! Per-exchange feed adapters (`binance`, `bitstamp`) decode wire frames into
//! canonical depth snapshots; the merge engine (`server::model`) ranks the
//! combined levels into a capped top-of-book view with spread; the
//! publication layer (`server::publish`) decides what each tick yields, when
//! the merged stream must end, and which adapters teardown must unsubscribe.
//!
//! Prices and quantities arrive on the wire as decimal strings; they are held
//! throughout as fixed-point integers (atoms of 10^-8, see `decimal`), so
//! every ranking and spread computation is exact integer arithmetic.  The
//! transport itself (sockets, TLS, task scheduling) stays outside the
//! library: callers hand frames in and send the frames handed back.

pub mod binance;
pub mod bitstamp;
pub mod decimal;
pub mod frame;
pub mod json;
pub mod server;
pub mod text;
