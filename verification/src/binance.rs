//! The binance feed adapter: the partial-depth snapshot model, frame
//! handling, and the book-ticker subscribe protocol.

pub mod error;
pub mod model;
pub mod stream;
pub mod ticker;
