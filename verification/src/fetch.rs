//! The fetch executor's decision rules, one session per dispatch job.
//!
//! The caller performs the HTTP GET and the file writes, and reports each
//! observation — the response status, each body chunk, the end of the body,
//! an error — to the session. The session decides what to do and keeps the
//! model of the target file: a non-success status completes the job with no
//! file written ("skipped", not an error); on success each chunk is appended
//! to the file as it arrives, never buffering the whole body; any network or
//! storage error aborts the job with its cause. No retry happens here.

use vstd::prelude::*;
use crate::job::DispatchJob;

verus! {

/// Why a fetch failed: reading the network or writing local storage.
#[derive(Debug, Clone, PartialEq, Eq)]
pub enum FetchErrorKind {
    Network,
    Storage,
}

/// A failed fetch, with its cause.
#[derive(Debug, Clone, PartialEq, Eq)]
pub struct FetchError {
    pub kind: FetchErrorKind,
    pub cause: String,
}

/// How a job ended: body stored in full; skipped on a non-success status
/// with no file written; or aborted by an I/O error.
#[derive(Debug, Clone, PartialEq, Eq)]
pub enum FetchOutcome {
    Completed,
    SkippedStatus(u16),
    Failed(FetchError),
}

/// What the caller must do next with the target file.
#[derive(Debug, Clone, PartialEq, Eq)]
pub enum FetchAction {
    CreateTarget,
    Finish,
}

/// Where a session stands.
#[derive(Debug, Clone, PartialEq, Eq)]
pub enum FetchPhase {
    AwaitingStatus,
    Streaming,
    Finished,
}

/// An HTTP status that counts as success.
pub open spec fn is_success_status(status: u16) -> bool {
    200 <= status < 300
}

/// One fetch in progress: the job, the phase, and the model of the target
/// file — `file_created` says whether the target exists, `file` what it
/// holds so far.
pub struct FetchSession {
    pub job: DispatchJob,
    pub phase: FetchPhase,
    pub file_created: bool,
    pub file: Vec<u8>,
    pub outcome: Option<FetchOutcome>,
}

impl FetchSession {
    /// Start a fetch for one job: the GET is issued, no file exists yet.
    pub fn new(job: DispatchJob) -> (s: Self)
        ensures
            s.phase is AwaitingStatus,
            !s.file_created,
            s.file@ =~= Seq::<u8>::empty(),
            s.outcome is None,
            s.job == job,
    {
        FetchSession { job, phase: FetchPhase::AwaitingStatus, file_created: false, file: Vec::new(), outcome: None }
    }

    /// Decide on the response status. A success status opens the target
    /// file for streaming; any other status finishes the job as skipped,
    /// with no file ever created.
    pub fn on_status(&mut self, status: u16) -> (a: FetchAction)
        requires
            old(self).phase is AwaitingStatus,
            !old(self).file_created,
            old(self).outcome is None,
        ensures
            final(self).job == old(self).job,
            final(self).file@ == old(self).file@,
            is_success_status(status) ==> {
                &&& final(self).phase is Streaming
                &&& final(self).file_created
                &&& final(self).outcome is None
                &&& a is CreateTarget
            },
            !is_success_status(status) ==> {
                &&& final(self).phase is Finished
                &&& !final(self).file_created
                &&& final(self).outcome == Some(FetchOutcome::SkippedStatus(status))
                &&& a is Finish
            },
    {
        if 200 <= status && status < 300 {
            self.phase = FetchPhase::Streaming;
            self.file_created = true;
            FetchAction::CreateTarget
        } else {
            self.phase = FetchPhase::Finished;
            self.outcome = Some(FetchOutcome::SkippedStatus(status));
            FetchAction::Finish
        }
    }

    /// Append one body chunk to the target file, as it arrives.
    pub fn on_chunk(&mut self, chunk: &Vec<u8>)
        requires
            old(self).phase is Streaming,
        ensures
            final(self).phase is Streaming,
            final(self).job == old(self).job,
            final(self).file_created == old(self).file_created,
            final(self).outcome == old(self).outcome,
            final(self).file@ =~= old(self).file@ + chunk@,
    {
        let ghost file0 = self.file@;
        let mut i: usize = 0;
        while i < chunk.len()
            invariant
                i <= chunk@.len(),
                self.file@ =~= file0 + chunk@.take(i as int),
                self.phase == old(self).phase,
                self.job == old(self).job,
                self.file_created == old(self).file_created,
                self.outcome == old(self).outcome,
            decreases chunk@.len() - i,
        {
            self.file.push(chunk[i]);
            proof {
                assert(chunk@.take(i + 1 as int) =~= chunk@.take(i as int).push(chunk@[i as int]));
            }
            i = i + 1;
        }
        proof {
            assert(chunk@.take(chunk@.len() as int) =~= chunk@);
        }
    }

    /// The body ended: the job is complete, the file holds the whole body.
    pub fn on_body_end(&mut self)
        requires
            old(self).phase is Streaming,
        ensures
            final(self).phase is Finished,
            final(self).job == old(self).job,
            final(self).file_created == old(self).file_created,
            final(self).file@ == old(self).file@,
            final(self).outcome == Some(FetchOutcome::Completed),
    {
        self.phase = FetchPhase::Finished;
        self.outcome = Some(FetchOutcome::Completed);
    }

    /// A network read or file write failed: the job aborts with that cause.
    pub fn on_error(&mut self, kind: FetchErrorKind, cause: String)
        requires
            !(old(self).phase is Finished),
        ensures
            final(self).phase is Finished,
            final(self).job == old(self).job,
            final(self).file_created == old(self).file_created,
            final(self).file@ == old(self).file@,
            final(self).outcome == Some(FetchOutcome::Failed(FetchError { kind, cause })),
    {
        self.phase = FetchPhase::Finished;
        self.outcome = Some(FetchOutcome::Failed(FetchError { kind, cause }));
    }
}

/// All chunks of a body, in arrival order, as one byte sequence.
pub open spec fn concat_all(chunks: Seq<Seq<u8>>) -> Seq<u8>
    decreases chunks.len(),
{
    if chunks.len() == 0 {
        Seq::empty()
    } else {
        chunks[0] + concat_all(chunks.drop_first())
    }
}

/// The file contents after a run of chunks, each appended as it arrives —
/// exactly what [`FetchSession::on_chunk`] does per chunk.
pub open spec fn streamed(file: Seq<u8>, chunks: Seq<Seq<u8>>) -> Seq<u8>
    decreases chunks.len(),
{
    if chunks.len() == 0 {
        file
    } else {
        streamed(file + chunks[0], chunks.drop_first())
    }
}

/// Law: appending a body's chunks one at a time, never buffering the whole
/// body, ends with the file holding exactly their concatenation.
pub proof fn lemma_streamed_is_concatenation(file: Seq<u8>, chunks: Seq<Seq<u8>>)
    ensures
        streamed(file, chunks) =~= file + concat_all(chunks),
    decreases chunks.len(),
{
    if chunks.len() == 0 {
        assert(file + concat_all(chunks) =~= file);
    } else {
        lemma_streamed_is_concatenation(file + chunks[0], chunks.drop_first());
        assert((file + chunks[0]) + concat_all(chunks.drop_first()) =~= file + concat_all(chunks));
    }
}

} // verus!
