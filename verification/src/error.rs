use vstd::prelude::*;

verus! {

/// Why an API request failed, with the message sent to the client.
#[derive(Debug)]
pub enum AppError {
    /// The requested object does not exist upstream.
    NotFound(String),
    /// The service is not configured for the request.
    Unavailable(String),
    /// An upstream exchange failed.
    Internal(String),
}

} // verus!
