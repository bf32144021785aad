//! A verified core for a small comment service: an in-memory keyed store of
//! comments, a query engine that pages over a snapshot sorted by recency, and
//! the lifecycle state machine for startup, request admission under a timeout,
//! and two-phase graceful shutdown.

pub mod comment;
pub mod dispatch;
pub mod errors;
pub mod lifecycle;
pub mod query;
pub mod store;

pub use comment::Comment;
