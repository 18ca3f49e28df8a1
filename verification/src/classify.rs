//! Classification of the service's HTTP status codes: which body shape an
//! answer carries and whether the statement is done, running, failed,
//! worth retrying, or in an unknown state.

use vstd::prelude::*;

verus! {

/// How a single-statement submission answered.
#[derive(Clone, Copy, Debug, PartialEq, Eq, Structural)]
pub enum ResponseClass {
    /// HTTP 200: the body is a complete result.
    Complete,
    /// HTTP 202 or 408: the body is a non-terminal status; the statement
    /// can be polled again or cancelled.
    InProgress,
    /// HTTP 422: the body is a terminal failure status.
    Failed,
    /// Any other code: a terminal classification error, never retried.
    Unknown,
}

/// How one status poll of a batch statement answered: as a submission
/// answer, plus the explicitly retryable rate-limit codes.
#[derive(Clone, Copy, Debug, PartialEq, Eq, Structural)]
pub enum PollClass {
    /// HTTP 200: the body is a complete result.
    Complete,
    /// HTTP 202 or 408: still running; the handle stays pending.
    InProgress,
    /// HTTP 422: the body is a terminal failure status.
    Failed,
    /// HTTP 429, 503 or 504: retryable; the handle stays pending.
    RateLimited,
    /// Any other code: a terminal classification error, never retried.
    Unknown,
}

pub open spec fn spec_classify_response(status: u16) -> ResponseClass {
    if status == 200 {
        ResponseClass::Complete
    } else if status == 202 || status == 408 {
        ResponseClass::InProgress
    } else if status == 422 {
        ResponseClass::Failed
    } else {
        ResponseClass::Unknown
    }
}

pub open spec fn spec_classify_poll(status: u16) -> PollClass {
    if status == 200 {
        PollClass::Complete
    } else if status == 202 || status == 408 {
        PollClass::InProgress
    } else if status == 422 {
        PollClass::Failed
    } else if status == 429 || status == 503 || status == 504 {
        PollClass::RateLimited
    } else {
        PollClass::Unknown
    }
}

/// Classifies the status code of a single-statement submission.
pub fn classify_response_status(status: u16) -> (r: ResponseClass)
    ensures
        r == spec_classify_response(status),
{
    if status == 200 {
        ResponseClass::Complete
    } else if status == 202 || status == 408 {
        ResponseClass::InProgress
    } else if status == 422 {
        ResponseClass::Failed
    } else {
        ResponseClass::Unknown
    }
}

/// Classifies the status code of one status poll against a handle.
pub fn classify_poll_status(status: u16) -> (r: PollClass)
    ensures
        r == spec_classify_poll(status),
{
    if status == 200 {
        PollClass::Complete
    } else if status == 202 || status == 408 {
        PollClass::InProgress
    } else if status == 422 {
        PollClass::Failed
    } else if status == 429 || status == 503 || status == 504 {
        PollClass::RateLimited
    } else {
        PollClass::Unknown
    }
}

/// Classifies the status code of a cancellation: only HTTP 200 is
/// success, every other code is reported as-is.
pub fn classify_cancel_status(status: u16) -> (r: Result<(), u16>)
    ensures
        status == 200 <==> r is Ok,
        r matches Err(c) ==> c == status,
{
    if status == 200 {
        Ok(())
    } else {
        Err(status)
    }
}

} // verus!
