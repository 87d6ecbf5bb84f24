//! The request-level error of the ingestion gateway.
//!
//! Only a malformed batch surfaces to the HTTP caller, and it does so as a
//! bare server error: status 500 with an empty body, no structured error
//! payload. Partial publish failures never become a request error.

use vstd::prelude::*;

verus! {

/// The gateway's only request-level error: an undeserializable batch.
#[derive(Debug, Clone, PartialEq, Eq)]
pub struct Error {}

impl Error {
    pub fn new() -> (e: Self) {
        Error {}
    }

    /// The HTTP status this error answers with.
    pub fn status_code(&self) -> (s: u16)
        ensures
            s == 500,
    {
        500
    }

    /// The response body: empty, nothing structured.
    pub fn body(&self) -> (b: Vec<u8>)
        ensures
            b@ =~= Seq::<u8>::empty(),
    {
        Vec::new()
    }
}

} // verus!
