use vstd::prelude::*;

verus! {

/// The error taxonomy of the service: a storage error during an insert, a
/// free-text query that is not read-only, and a storage error during a read.
#[derive(Clone, Copy, Debug, PartialEq, Eq, Structural)]
pub enum LogError {
    WriteFailure,
    QueryRejected,
    QueryFailure,
}

/// The bare HTTP status each error is surfaced as: no structured body, no
/// retry, terminal for the request.
pub open spec fn spec_status_code(e: LogError) -> u16 {
    match e {
        LogError::WriteFailure => 500,
        LogError::QueryRejected => 403,
        LogError::QueryFailure => 400,
    }
}

impl LogError {
    /// The HTTP status code this error is reported with.
    pub fn status_code(&self) -> (c: u16)
        ensures
            c == spec_status_code(*self),
    {
        match self {
            LogError::WriteFailure => 500,
            LogError::QueryRejected => 403,
            LogError::QueryFailure => 400,
        }
    }
}

} // verus!
