//! Verified core of an Elastic APM telemetry layer.
//!
//! The crate turns a hierarchical stream of span lifecycle callbacks
//! (open, record, enter, exit, close, event) into Elastic APM intake
//! records: a root span becomes a Transaction, a non-root span becomes a
//! Span, an error-level log event becomes an Error. It also provides the
//! W3C traceparent codec, the newline-delimited JSON batch framing and
//! the authorization header needed to ship those records.

pub mod attrs;
pub mod client;
pub mod config;
pub mod error_log;
pub mod fields;
pub mod ids;
pub mod laws;
pub mod layer;
pub mod metadata;
pub mod middleware;
pub mod model;
pub mod rng;
pub mod service;
pub mod span;
pub mod span_context;
pub mod strutil;
pub mod trace_context;
pub mod traceparent;
pub mod transaction;
