//! The dispatch consumer's decision rules.
//!
//! The consumer is one long-lived loop: subscribe, then receive one message
//! at a time and process it to completion before pulling the next — there is
//! never more than one fetch in flight. The broker owns the committed
//! offset; this layer only stores the position of the last fully handled
//! message, and the periodic auto-commit flushes whatever is stored. A
//! message is marked processed immediately after its handling ends well
//! (fetch completed, fetch skipped on bad status, or payload malformed and
//! skipped by policy); a failed fetch leaves the stored offset alone so the
//! message can be delivered again — at-least-once processing.
//!
//! Policy choices made explicit here: a malformed payload is logged and
//! skipped (it would never parse on redelivery either); a fetch error is
//! logged and the loop continues without acknowledging, rather than crashing
//! the consumer. A stream receive error is non-fatal; only a subscribe
//! failure at startup is.

use vstd::prelude::*;
use crate::job::{DispatchJob, decode_job_spec, decode_job};
use crate::fetch::FetchOutcome;

verus! {

/// What the process does about the broker at startup: run, or fail closed
/// before anything is half-initialized.
#[derive(Debug, Clone, PartialEq, Eq)]
pub enum StartupDecision {
    Proceed,
    FatalExit,
}

/// Connection or subscribe setup either succeeded or is fatal: the process
/// must not run half-initialized, and nothing retries here.
pub fn startup_decision(broker_ready: bool) -> (d: StartupDecision)
    ensures
        d is Proceed <==> broker_ready,
{
    if broker_ready {
        StartupDecision::Proceed
    } else {
        StartupDecision::FatalExit
    }
}

/// What to do with one received message.
#[derive(Debug, Clone, PartialEq, Eq)]
pub enum MessageDisposition {
    RunFetch(DispatchJob),
    SkipMalformed,
}

/// How one message's handling ended.
#[derive(Debug, Clone, PartialEq, Eq)]
pub enum MessageOutcome {
    Fetched(FetchOutcome),
    Malformed,
}

/// Whether an outcome acknowledges the message: everything but a failed
/// fetch does.
pub open spec fn outcome_acked(o: MessageOutcome) -> bool {
    match o {
        MessageOutcome::Malformed => true,
        MessageOutcome::Fetched(f) => !(f is Failed),
    }
}

/// What the caller must do with the broker's offset store after a message.
#[derive(Debug, Clone, PartialEq, Eq)]
pub enum OffsetAction {
    StoreOffset(i64),
    LeaveUnstored,
}

/// One partition's processing state: the offset of the message being
/// processed, the offsets fully handled in order, and the last offset
/// marked processed for the periodic auto-commit to flush.
pub struct PartitionConsumer {
    pub in_flight: Option<i64>,
    pub handled: Vec<i64>,
    pub stored: Option<i64>,
}

impl PartitionConsumer {
    /// A fresh partition cursor, nothing received yet.
    pub fn new() -> (c: Self)
        ensures
            c.in_flight is None,
            c.handled@ =~= Seq::<i64>::empty(),
            c.stored is None,
    {
        PartitionConsumer { in_flight: None, handled: Vec::new(), stored: None }
    }

    /// Take one delivered message. Requires that no fetch is in flight: the
    /// previous message must be completed first, so messages of a partition
    /// are processed one at a time, in delivery order. Decides from the
    /// payload alone: a decodable payload starts its fetch, anything else is
    /// skipped as malformed.
    pub fn begin_message(&mut self, offset: i64, payload: &Vec<u8>) -> (d: MessageDisposition)
        requires
            old(self).in_flight is None,
        ensures
            final(self).in_flight == Some(offset),
            final(self).handled == old(self).handled,
            final(self).stored == old(self).stored,
            match decode_job_spec(payload@) {
                Option::Some(j) => d matches MessageDisposition::RunFetch(job) && job@ == j,
                Option::None => d is SkipMalformed,
            },
    {
        self.in_flight = Some(offset);
        match decode_job(payload) {
            Some(job) => MessageDisposition::RunFetch(job),
            None => MessageDisposition::SkipMalformed,
        }
    }

    /// Close out the in-flight message. An acknowledging outcome marks the
    /// message's offset processed at once — before any later message and
    /// before the next periodic commit can fire — so the auto-commit
    /// advances the true processed position. A failed fetch stores nothing,
    /// leaving the message for redelivery.
    pub fn complete_message(&mut self, outcome: &MessageOutcome) -> (a: OffsetAction)
        requires
            old(self).in_flight is Some,
        ensures
            final(self).in_flight is None,
            (final(self).handled@, final(self).stored) == after_message(
                old(self).handled@,
                old(self).stored,
                old(self).in_flight->0,
                outcome_acked(*outcome),
            ),
            outcome_acked(*outcome) ==> {
                &&& a == OffsetAction::StoreOffset(old(self).in_flight->0)
                &&& final(self).stored == Some(old(self).in_flight->0)
            },
            !outcome_acked(*outcome) ==> {
                &&& a is LeaveUnstored
                &&& final(self).stored == old(self).stored
            },
    {
        let offset = match self.in_flight {
            Some(o) => o,
            None => vstd::pervasive::unreached(),
        };
        self.in_flight = None;
        self.handled.push(offset);
        let acked = match outcome {
            MessageOutcome::Malformed => true,
            MessageOutcome::Fetched(f) => !matches!(f, FetchOutcome::Failed(_)),
        };
        if acked {
            self.stored = Some(offset);
            OffsetAction::StoreOffset(offset)
        } else {
            OffsetAction::LeaveUnstored
        }
    }

    /// What one periodic auto-commit tick flushes: exactly the stored
    /// position, nothing the consumer has not marked processed.
    pub fn commit_tick(&self) -> (c: Option<i64>)
        ensures
            c == self.stored,
    {
        self.stored
    }
}

/// A partition's state after one whole message: handled grows by that
/// message's offset; the stored position advances exactly when the outcome
/// acknowledged it.
pub open spec fn after_message(
    handled: Seq<i64>,
    stored: Option<i64>,
    offset: i64,
    acked: bool,
) -> (Seq<i64>, Option<i64>) {
    (handled.push(offset), if acked { Some(offset) } else { stored })
}

/// A partition's state after a run of whole messages, delivered in order.
pub open spec fn after_messages(
    handled: Seq<i64>,
    stored: Option<i64>,
    offsets: Seq<i64>,
    acks: Seq<bool>,
) -> (Seq<i64>, Option<i64>)
    decreases offsets.len(),
{
    if offsets.len() == 0 {
        (handled, stored)
    } else {
        let (h, st) = after_message(handled, stored, offsets[0], acks[0]);
        after_messages(h, st, offsets.drop_first(), acks.drop_first())
    }
}

/// Law: messages of a partition are handled exactly in the order the broker
/// delivered them, whatever each one's outcome was — a fetch never begins
/// before the previous one has completed, and no message is reordered or
/// dropped from the handled log.
pub proof fn lemma_partition_in_order(
    handled: Seq<i64>,
    stored: Option<i64>,
    offsets: Seq<i64>,
    acks: Seq<bool>,
)
    requires
        acks.len() == offsets.len(),
    ensures
        after_messages(handled, stored, offsets, acks).0 =~= handled + offsets,
    decreases offsets.len(),
{
    if offsets.len() == 0 {
        assert(handled + offsets =~= handled);
    } else {
        lemma_partition_in_order(
            handled.push(offsets[0]),
            after_message(handled, stored, offsets[0], acks[0]).1,
            offsets.drop_first(),
            acks.drop_first(),
        );
        assert(handled.push(offsets[0]) + offsets.drop_first() =~= handled + offsets);
    }
}

/// Law: once a message's handling acknowledges it, the very next commit
/// tick — and every one until a later message is acknowledged — flushes at
/// least that offset; an unacknowledged failure leaves the stored position
/// where it was.
pub proof fn lemma_ack_reaches_commit(
    handled: Seq<i64>,
    stored: Option<i64>,
    offset: i64,
    acked: bool,
)
    ensures
        acked ==> after_message(handled, stored, offset, acked).1 == Some(offset),
        !acked ==> after_message(handled, stored, offset, acked).1 == stored,
{
}

} // verus!
