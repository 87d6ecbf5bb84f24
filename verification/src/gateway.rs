//! The ingestion gateway's publish plan and its bookkeeping.
//!
//! One session covers one received batch. The session fixes, up front, the
//! exact broker messages to publish: one per record, in batch order, keyed by
//! the record's session id, carrying the record's canonical encoding. The
//! caller then publishes them one at a time, reporting each delivery result
//! back; a failed delivery is counted and never stops the remaining records.
//! Once every record has been attempted the session's response is success —
//! "batch was processed", not "every event was durably published".

use vstd::prelude::*;
use vstd::utf8::encode_utf8;
use vstd::string::*;
use crate::record::{EventDataV, EventBatch, encode_record, encode_event};

verus! {

/// A key/value envelope for the broker; no schema is enforced at the broker
/// boundary.
#[derive(Debug, Clone, PartialEq, Eq)]
pub struct BrokerMessage {
    pub key: Vec<u8>,
    pub payload: Vec<u8>,
}

/// The mathematical value of a [`BrokerMessage`].
#[verifier::ext_equal]
pub struct BrokerMessageV {
    pub key: Seq<u8>,
    pub payload: Seq<u8>,
}

impl View for BrokerMessage {
    type V = BrokerMessageV;

    open spec fn view(&self) -> BrokerMessageV {
        BrokerMessageV { key: self.key@, payload: self.payload@ }
    }
}

impl DeepView for BrokerMessage {
    type V = BrokerMessageV;

    open spec fn deep_view(&self) -> BrokerMessageV {
        self.view()
    }
}

/// The outcome of one publish attempt: accepted at a broker-assigned
/// position, or failed with a cause. Never retried by this layer.
#[derive(Debug, Clone, PartialEq, Eq)]
pub enum DeliveryResult {
    Delivered { partition: i32, offset: i64 },
    Failed { cause: String },
}

/// The message a record publishes as: keyed by the record's session id.
pub open spec fn message_for(v: EventDataV) -> BrokerMessageV {
    BrokerMessageV { key: encode_utf8(v.sid), payload: encode_record(v) }
}

/// One batch's publish plan and its progress.
pub struct IngestSession {
    pub messages: Vec<BrokerMessage>,
    pub attempted: usize,
    pub failures: usize,
}

impl IngestSession {
    /// The session's bookkeeping is consistent.
    pub open spec fn wf(&self) -> bool {
        self.attempted <= self.messages@.len() && self.failures <= self.attempted
    }

    /// Plan the publishes for a batch: one message per record, in the
    /// batch's order, each keyed by that record's session id.
    pub fn new(batch: &EventBatch) -> (s: Self)
        ensures
            s.wf(),
            s.attempted == 0,
            s.failures == 0,
            s.messages@.len() == batch.data@.len(),
            forall|i: int|
                0 <= i < batch.data@.len() ==> (#[trigger] s.messages@[i])@ == message_for(
                    batch.data@[i]@,
                ),
    {
        let mut messages: Vec<BrokerMessage> = Vec::new();
        let mut i: usize = 0;
        while i < batch.data.len()
            invariant
                i <= batch.data@.len(),
                messages@.len() == i,
                forall|k: int|
                    0 <= k < i ==> (#[trigger] messages@[k])@ == message_for(batch.data@[k]@),
            decreases batch.data@.len() - i,
        {
            let r = &batch.data[i];
            let key = r.sid.as_str().as_bytes_vec();
            let payload = encode_event(r);
            messages.push(BrokerMessage { key, payload });
            i = i + 1;
        }
        IngestSession { messages, attempted: 0, failures: 0 }
    }

    /// The next message owed to the broker, if any record is still
    /// unattempted.
    pub fn next_message(&self) -> (m: Option<&BrokerMessage>)
        requires
            self.wf(),
        ensures
            m is Some <==> self.attempted < self.messages@.len(),
            m is Some ==> *m.unwrap() == self.messages@[self.attempted as int],
    {
        if self.attempted < self.messages.len() {
            Some(&self.messages[self.attempted])
        } else {
            None
        }
    }

    /// Book one delivery result. Whatever the outcome — delivered or failed
    /// — the session moves to the next record; a failure is only counted.
    pub fn record_outcome(&mut self, outcome: &DeliveryResult)
        requires
            old(self).wf(),
            old(self).attempted < old(self).messages@.len(),
        ensures
            final(self).wf(),
            final(self).messages == old(self).messages,
            (final(self).attempted as int, final(self).failures as int) == outcome_step(
                old(self).attempted as int,
                old(self).failures as int,
                *outcome,
            ),
    {
        if self.attempted < self.messages.len() {
            self.attempted = self.attempted + 1;
            if let DeliveryResult::Failed { cause: _ } = outcome {
                self.failures = self.failures + 1;
            }
        }
    }

    /// Every record has been attempted.
    pub fn is_done(&self) -> (r: bool)
        ensures
            r == (self.attempted == self.messages@.len()),
    {
        self.attempted == self.messages.len()
    }

    /// The HTTP answer once the batch has been processed: plain success,
    /// whether or not some publishes failed.
    pub fn response(&self) -> (r: (u16, String))
        requires
            self.wf(),
            self.attempted == self.messages@.len(),
        ensures
            r.0 == 200,
            r.1@ == "ok"@,
    {
        (200, "ok".to_owned())
    }
}

/// A session's bookkeeping after one delivery result, exactly as
/// [`IngestSession::record_outcome`] changes it: the cursor advances by
/// one whatever the result was; only a failure is counted.
pub open spec fn outcome_step(attempted: int, failures: int, outcome: DeliveryResult) -> (
    int,
    int,
) {
    (
        attempted + 1,
        failures + if outcome is Failed {
            1int
        } else {
            0int
        },
    )
}

/// The bookkeeping after a run of delivery results, booked in order.
pub open spec fn outcomes_fold(
    attempted: int,
    failures: int,
    outcomes: Seq<DeliveryResult>,
) -> (int, int)
    decreases outcomes.len(),
{
    if outcomes.len() == 0 {
        (attempted, failures)
    } else {
        let (a, f) = outcome_step(attempted, failures, outcomes[0]);
        outcomes_fold(a, f, outcomes.drop_first())
    }
}

/// Law: a session that books one delivery result per record of an
/// `n`-record batch — any mix of deliveries and failures — has attempted
/// all `n` planned messages. A failure at record `i` never prevents the
/// attempts for records `i + 1` onward; together with
/// [`IngestSession::new`], which plans one message per record keyed by its
/// session id in batch order, and [`IngestSession::next_message`], which
/// hands the messages out in exactly that order, every record is published
/// exactly once, in order, under its own key.
pub proof fn lemma_batch_fully_attempted(outcomes: Seq<DeliveryResult>)
    ensures
        outcomes_fold(0, 0, outcomes).0 == outcomes.len(),
{
    lemma_outcomes_fold_progress(0, 0, outcomes);
}

proof fn lemma_outcomes_fold_progress(attempted: int, failures: int, outcomes: Seq<DeliveryResult>)
    ensures
        outcomes_fold(attempted, failures, outcomes).0 == attempted + outcomes.len(),
    decreases outcomes.len(),
{
    if outcomes.len() != 0 {
        let (a, f) = outcome_step(attempted, failures, outcomes[0]);
        lemma_outcomes_fold_progress(a, f, outcomes.drop_first());
    }
}

} // verus!
