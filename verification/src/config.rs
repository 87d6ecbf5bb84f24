//! The broker client adapter's configuration values.
//!
//! These functions fix the adapter's knobs: the producer's bounded in-flight
//! delivery timeout, and the consumer's group membership, commit and offset
//! store behaviour. The caller turns them into its broker client's key/value
//! settings; the values themselves are decided — and checked — here.

use vstd::prelude::*;

verus! {

/// Producer-side connection settings.
#[derive(Debug, Clone, PartialEq, Eq)]
pub struct ProducerConfig {
    pub bootstrap_servers: String,
    /// After this many milliseconds an in-flight send is abandoned and
    /// reported as a failure.
    pub message_timeout_ms: u64,
}

/// The producer configuration: a 5 second global in-flight delivery
/// timeout, fixed at connection setup.
pub fn producer_config(bootstrap_servers: String) -> (c: ProducerConfig)
    ensures
        c.bootstrap_servers == bootstrap_servers,
        c.message_timeout_ms == 5000,
{
    ProducerConfig { bootstrap_servers, message_timeout_ms: 5000 }
}

/// Consumer-side subscription settings.
#[derive(Debug, Clone, PartialEq, Eq)]
pub struct ConsumerConfig {
    pub bootstrap_servers: String,
    pub group_id: String,
    pub topic: String,
    /// Group-membership liveness window.
    pub session_timeout_ms: u64,
    /// Periodically commit the stored offset in the background.
    pub auto_commit: bool,
    pub auto_commit_interval_ms: u64,
    /// Advance the stored offset only when a message is explicitly marked
    /// processed, never on receipt.
    pub manual_offset_store: bool,
    /// Report partition-end as an event rather than an error.
    pub partition_eof_events: bool,
}

/// The consumer configuration: commit every 5 seconds, but only what was
/// explicitly stored; a 6 second session timeout; no partition-end events.
pub fn consumer_config(bootstrap_servers: String, group_id: String, topic: String) -> (c:
    ConsumerConfig)
    ensures
        c.bootstrap_servers == bootstrap_servers,
        c.group_id == group_id,
        c.topic == topic,
        c.session_timeout_ms == 6000,
        c.auto_commit,
        c.auto_commit_interval_ms == 5000,
        c.manual_offset_store,
        !c.partition_eof_events,
{
    ConsumerConfig {
        bootstrap_servers,
        group_id,
        topic,
        session_timeout_ms: 6000,
        auto_commit: true,
        auto_commit_interval_ms: 5000,
        manual_offset_store: true,
        partition_eof_events: false,
    }
}

} // verus!
