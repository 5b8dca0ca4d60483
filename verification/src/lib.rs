//! A cursor-driven client for a streaming transaction-data service.
//!
//! The client asks the service for the transactions from a position in its
//! log, reads the batch that comes back, hands each record to the handler of
//! its kind, moves the position past what it has seen, and asks again.
//!
//! This crate holds the decisions of that loop and none of its waiting:
//! [`request`] builds the request for a batch, [`dispatch`] picks the handler
//! for a record, [`cursor`] moves the position, and [`session`] ties them into
//! a state machine that a driver feeds with what the transport reports.

pub mod connection;
pub mod cursor;
pub mod dispatch;
pub mod header_text;
pub mod metadata;
pub mod record;
pub mod request;
pub mod session;

pub use connection::{MAX_RESPONSE_SIZE, RECONNECTION_MAX_RETRIES};
pub use request::grpc_request_builder;
