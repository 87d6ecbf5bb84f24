//! Dispatch jobs: the descriptors the consumer expects inside a broker
//! message. A job names a remote URL and the local file the fetched body is
//! stored under. Jobs travel through the broker in the same field encoding
//! as event records, with their own round-trip law.

use vstd::prelude::*;
use crate::codec::{enc_fields, fields_fit, parse_fields, encode_fields, decode_fields,
    lemma_fields_round_trip};

verus! {

/// A fetch job: retrieve `url` and store the body under `target_file_name`.
#[derive(Debug, Clone, PartialEq, Eq)]
pub struct DispatchJob {
    pub url: String,
    pub target_file_name: String,
}

/// The mathematical value of a [`DispatchJob`].
#[verifier::ext_equal]
pub struct DispatchJobV {
    pub url: Seq<char>,
    pub target_file_name: Seq<char>,
}

impl View for DispatchJob {
    type V = DispatchJobV;

    open spec fn view(&self) -> DispatchJobV {
        DispatchJobV { url: self.url@, target_file_name: self.target_file_name@ }
    }
}

impl DeepView for DispatchJob {
    type V = DispatchJobV;

    open spec fn deep_view(&self) -> DispatchJobV {
        self.view()
    }
}

/// The canonical field order of a job's payload encoding.
pub open spec fn job_fields(v: DispatchJobV) -> Seq<Option<Seq<char>>> {
    seq![Option::Some(v.url), Option::Some(v.target_file_name)]
}

/// A job's canonical payload encoding.
pub open spec fn encode_job_bytes(v: DispatchJobV) -> Seq<u8> {
    enc_fields(job_fields(v))
}

/// Both fields' UTF-8 encodings fit their 64-bit length prefixes.
pub open spec fn job_fits(v: DispatchJobV) -> bool {
    fields_fit(job_fields(v))
}

/// What decoding a payload yields: the job the buffer encodes, if it is one.
pub open spec fn decode_job_spec(b: Seq<u8>) -> Option<DispatchJobV> {
    match parse_fields(b, 0, 2) {
        Option::Some((fs, pos)) => if pos == b.len() && fs[0] is Some && fs[1] is Some {
            Option::Some(DispatchJobV { url: fs[0]->0, target_file_name: fs[1]->0 })
        } else {
            Option::None
        },
        Option::None => Option::None,
    }
}

/// Serialize a job to its canonical payload encoding.
pub fn encode_job(j: &DispatchJob) -> (out: Vec<u8>)
    ensures
        out@ == encode_job_bytes(j@),
{
    let mut fs: Vec<Option<String>> = Vec::new();
    fs.push(Some(j.url.clone()));
    fs.push(Some(j.target_file_name.clone()));
    let out = encode_fields(&fs);
    proof {
        assert(fs.deep_view() =~= job_fields(j@));
    }
    out
}

/// Deserialize a payload; yields the one job the buffer encodes, nothing on
/// any other buffer.
pub fn decode_job(b: &Vec<u8>) -> (r: Option<DispatchJob>)
    ensures
        r is Some <==> decode_job_spec(b@) is Some,
        r is Some ==> r.unwrap()@ == decode_job_spec(b@).unwrap(),
{
    match decode_fields(b, 2) {
        None => None,
        Some(fs) => {
            let url = match &fs[0] {
                Some(s) => s.clone(),
                None => {
                    return None;
                },
            };
            let target_file_name = match &fs[1] {
                Some(s) => s.clone(),
                None => {
                    return None;
                },
            };
            Some(DispatchJob { url, target_file_name })
        },
    }
}

/// Round trip: decoding the encoding of any job yields that job.
pub proof fn lemma_job_round_trip(v: DispatchJobV)
    requires
        job_fits(v),
    ensures
        decode_job_spec(encode_job_bytes(v)) == Option::Some(v),
{
    lemma_fields_round_trip(job_fields(v));
    assert(decode_job_spec(encode_job_bytes(v)).unwrap() =~= v);
}

} // verus!
