//! The kinds of failure: those of a single query to the operating system,
//! and those that a client of the service is shown.

use vstd::prelude::*;

verus! {

/// Why one query to the operating system gave no answer.
#[derive(Clone, Copy, Debug, PartialEq, Eq, Structural)]
pub enum ReadError {
    /// The process left between its enumeration and the reading.
    ProcessGone,
    /// The operating system denied the reading.
    PermissionDenied,
    /// The facility could not be queried at all.
    Unavailable,
}

/// Why a request failed.
#[derive(Clone, Debug, PartialEq, Eq)]
pub enum ApiError {
    /// The operating system could not be queried; no partial data is given.
    Unavailable,
    /// The process identifier or the core index names nothing.
    NotFound,
    /// The operating system denied the reading or the signal.
    PermissionDenied,
    /// Starting or signalling a process failed at the call into the
    /// operating system; the text is the one it gave.
    Execution(String),
    /// An entry of a batch failed, for the given reason, and the batch was
    /// given up.
    PartialFailure(ReadError),
}

/// The mathematical value of an `ApiError`.
pub enum ApiErrorView {
    Unavailable,
    NotFound,
    PermissionDenied,
    Execution(Seq<char>),
    PartialFailure(ReadError),
}

impl View for ApiError {
    type V = ApiErrorView;

    open spec fn view(&self) -> ApiErrorView {
        match *self {
            ApiError::Unavailable => ApiErrorView::Unavailable,
            ApiError::NotFound => ApiErrorView::NotFound,
            ApiError::PermissionDenied => ApiErrorView::PermissionDenied,
            ApiError::Execution(message) => ApiErrorView::Execution(message@),
            ApiError::PartialFailure(cause) => ApiErrorView::PartialFailure(cause),
        }
    }
}

/// The failure of a request for one entity whose reading failed with `cause`:
/// a process that is gone was not found, a denial stays a denial, and the
/// rest is unavailable.
pub open spec fn fault_of(cause: ReadError) -> ApiErrorView {
    match cause {
        ReadError::ProcessGone => ApiErrorView::NotFound,
        ReadError::PermissionDenied => ApiErrorView::PermissionDenied,
        ReadError::Unavailable => ApiErrorView::Unavailable,
    }
}

/// The HTTP status that answers each kind of failure.
pub open spec fn status_code(err: ApiErrorView) -> u16 {
    match err {
        ApiErrorView::Unavailable => 503,
        ApiErrorView::NotFound => 404,
        ApiErrorView::PermissionDenied => 403,
        ApiErrorView::Execution(_) => 500,
        ApiErrorView::PartialFailure(_) => 502,
    }
}

/// The words that a client is shown for a failure: those of the operating
/// system where it gave any, and else no more than the kind.
pub open spec fn message_of(err: ApiErrorView) -> Seq<char> {
    match err {
        ApiErrorView::Unavailable => "the operating system could not be queried"@,
        ApiErrorView::NotFound => "not found"@,
        ApiErrorView::PermissionDenied => "permission denied"@,
        ApiErrorView::Execution(message) => message,
        ApiErrorView::PartialFailure(_) => "a process could not be read"@,
    }
}

/// Whether two failures are of the same kind, whatever they carry.
pub open spec fn same_kind(a: ApiErrorView, b: ApiErrorView) -> bool {
    match (a, b) {
        (ApiErrorView::Unavailable, ApiErrorView::Unavailable) => true,
        (ApiErrorView::NotFound, ApiErrorView::NotFound) => true,
        (ApiErrorView::PermissionDenied, ApiErrorView::PermissionDenied) => true,
        (ApiErrorView::Execution(_), ApiErrorView::Execution(_)) => true,
        (ApiErrorView::PartialFailure(_), ApiErrorView::PartialFailure(_)) => true,
        _ => false,
    }
}

impl ReadError {
    /// Maps the failure of a single reading to the failure of the request
    /// that asked for that one entity.
    pub fn into_fault(self) -> (err: ApiError)
        ensures
            err@ == fault_of(self),
    {
        match self {
            ReadError::ProcessGone => ApiError::NotFound,
            ReadError::PermissionDenied => ApiError::PermissionDenied,
            ReadError::Unavailable => ApiError::Unavailable,
        }
    }
}

impl ApiError {
    /// The words to show a client for this failure.
    pub fn message(&self) -> (text: String)
        ensures
            text@ == message_of(self@),
    {
        match self {
            ApiError::Unavailable => String::from_str("the operating system could not be queried"),
            ApiError::NotFound => String::from_str("not found"),
            ApiError::PermissionDenied => String::from_str("permission denied"),
            ApiError::Execution(message) => message.clone(),
            ApiError::PartialFailure(_) => String::from_str("a process could not be read"),
        }
    }

    /// The HTTP status to answer this failure with.
    pub fn http_status(&self) -> (code: u16)
        ensures
            code == status_code(self@),
    {
        match self {
            ApiError::Unavailable => 503,
            ApiError::NotFound => 404,
            ApiError::PermissionDenied => 403,
            ApiError::Execution(_) => 500,
            ApiError::PartialFailure(_) => 502,
        }
    }
}

/// Every failure is answered with a client or server error status, and two
/// failures share a status only if they are of the same kind.
pub proof fn lemma_status_tells_kinds_apart(a: ApiErrorView, b: ApiErrorView)
    ensures
        400 <= status_code(a) < 600,
        status_code(a) == status_code(b) <==> same_kind(a, b),
{
}

/// A reading that failed because the process is gone is never answered as
/// anything but not found, and no other failed reading is.
pub proof fn lemma_gone_is_not_found(cause: ReadError)
    ensures
        fault_of(cause) == ApiErrorView::NotFound <==> cause == ReadError::ProcessGone,
        status_code(fault_of(cause)) == 404 <==> cause == ReadError::ProcessGone,
{
}

} // verus!
