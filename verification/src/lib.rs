//! Event-relay pipeline core: batches of analytics events arrive over HTTP,
//! each record is republished onto a message broker keyed by its session id,
//! and an independent consumer turns broker messages into fetch jobs that
//! stream a remote resource to local storage.
//!
//! This crate holds the verified logic of that pipeline: the data model, the
//! payload codec shared by producer and consumer, and the decision rules of
//! each stage (which message to publish next, when an offset is marked
//! processed, when a fetch is skipped). The surrounding I/O — the HTTP
//! server, the broker client, the network fetch and the file writes — lives
//! outside this crate and drives these rules.

pub mod codec;
pub mod config;
pub mod consumer;
pub mod error;
pub mod fetch;
pub mod gateway;
pub mod job;
pub mod record;
