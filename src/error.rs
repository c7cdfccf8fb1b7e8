//! The ways an operation can fail.
use vstd::prelude::*;

verus! {

/// A typed failure. Each kind but the first names, in `context`, the
/// search or the asset that was being processed when it occurred.
#[derive(Debug, Clone)]
pub enum NexusError {
    /// An identity or secret was absent; the operation stopped before any request.
    MissingCredentials,
    /// The service could not be reached (DNS, connection, timeout).
    NetworkError { context: String, detail: String },
    /// The service answered with a failure status.
    HttpError { context: String, status: u16 },
    /// The service answered, but not with the expected JSON document.
    DecodeError { context: String, detail: String },
    /// A local file could not be created or written.
    FilesystemError { context: String, detail: String },
    /// The service kept offering further pages beyond the client's page cap.
    PageLimitExceeded { context: String, pages: usize },
}

/// Whether a status code reports success (the 2xx range).
pub open spec fn is_success_status(status: u16) -> bool {
    200 <= status <= 299
}

/// The failure, if any, that a response status brings: an HTTP failure
/// naming `context` exactly when the status is outside the 2xx range.
pub fn check_status(status: u16, context: &str) -> (r: Result<(), NexusError>)
    ensures
        r is Ok <==> is_success_status(status),
        r is Err ==> (r->Err_0 matches NexusError::HttpError { context: c, status: s } && c@
            == context@ && s == status),
{
    if 200 <= status && status <= 299 {
        Ok(())
    } else {
        Err(NexusError::HttpError { context: context.to_string(), status })
    }
}

} // verus!
