//! The aggregation service: one merge engine per subscriber, fail-fast error
//! propagation, and orderly teardown bookkeeping.

pub mod model;
pub mod publish;
