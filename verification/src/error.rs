//! The ways in which an operation can fail.

use vstd::prelude::*;
use crate::types::ExecutionStatusResponse;

verus! {

/// Every failure that the library reports.
#[derive(Clone, Debug, PartialEq, Eq)]
pub enum DuneError {
    /// The credential is empty or cannot be sent as a header.
    InvalidApiKey,
    /// The request did not reach the service, or its answer did not arrive.
    Http { message: String },
    /// The service answered with a status outside the success range.
    Api { message: String },
    /// The execution came to rest as failed; the last observation is kept.
    ExecutionFailed { execution_id: String, status: ExecutionStatusResponse },
    /// The execution came to rest as cancelled.
    Cancelled,
    /// The time allowed for waiting ran out before the execution came to rest.
    Timeout { seconds: u64 },
    /// The answer's body does not have the expected shape.
    Json { message: String },
}

} // verus!
