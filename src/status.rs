use vstd::prelude::*;

use crate::error::ErrorKind;

verus! {

/// The kind that a response status maps to.
pub open spec fn status_kind(status: u16) -> ErrorKind {
    if status == 404 {
        ErrorKind::NotFound
    } else if status == 401 || status == 403 {
        ErrorKind::PermissionDenied
    } else if status == 412 {
        ErrorKind::ConditionNotMatch
    } else {
        ErrorKind::Unexpected
    }
}

/// Whether a response status is a transient server-side failure.
pub open spec fn status_retryable(status: u16) -> bool {
    status == 500 || status == 502 || status == 503 || status == 504
}

/// Maps a response status to its error kind and whether a retry may succeed.
pub fn classify_status(status: u16) -> (r: (ErrorKind, bool))
    ensures
        r.0 == status_kind(status),
        r.1 == status_retryable(status),
{
    match status {
        404 => (ErrorKind::NotFound, false),
        401 | 403 => (ErrorKind::PermissionDenied, false),
        412 => (ErrorKind::ConditionNotMatch, false),
        500 | 502 | 503 | 504 => (ErrorKind::Unexpected, true),
        _ => (ErrorKind::Unexpected, false),
    }
}

} // verus!
