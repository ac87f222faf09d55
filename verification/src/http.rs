//! The HTTP proxy command's reply logic: mapping the outcome of the
//! outbound GET request to the status/body payload or to a descriptive
//! error string.

use vstd::prelude::*;
use vstd::string::StringExecFns;

verus! {

/// The argument of the `http_request` command: the URL to fetch.
pub struct HttpRequest {
    pub url: String,
}

/// The payload returned on full success: the numeric HTTP status code
/// of the response and its body as text.
pub struct HttpResponse {
    pub status: u16,
    pub body: String,
}

/// The outcome of performing the outbound GET: a transport failure, a
/// response whose body could not be decoded as text, or a response with
/// its status and full body text.
pub enum FetchOutcome {
    /// The request could not be made, with this description.
    RequestFailed { error: String },
    /// A response arrived but its body could not be read as text.
    TextFailed { status: u16, error: String },
    /// A response arrived and its body was read in full.
    Fetched { status: u16, body: String },
}

/// What `http_request` returns for each outcome of the GET: the
/// status/body payload on success, a distinct descriptive error for a
/// transport failure and for a body-decode failure.
pub open spec fn http_reply(outcome: FetchOutcome, r: Result<HttpResponse, String>) -> bool {
    match outcome {
        FetchOutcome::RequestFailed { error } => r is Err && r->Err_0@ ==
            "Could not make request: "@ + error@,
        FetchOutcome::TextFailed { status, error } => r is Err && r->Err_0@ ==
            "Could not get text from response: "@ + error@,
        FetchOutcome::Fetched { status, body } => r is Ok && r->Ok_0.status == status
            && r->Ok_0.body@ == body@,
    }
}

/// http_request, after the network has answered: every outcome is
/// converted to a reply value — a transport failure becomes an error
/// string, never a fault.
pub fn http_request_reply(outcome: FetchOutcome) -> (r: Result<HttpResponse, String>)
    ensures
        http_reply(outcome, r),
{
    match outcome {
        FetchOutcome::RequestFailed { error } => Err(
            "Could not make request: ".to_owned().concat(error.as_str()),
        ),
        FetchOutcome::TextFailed { status: _, error } => Err(
            "Could not get text from response: ".to_owned().concat(error.as_str()),
        ),
        FetchOutcome::Fetched { status, body } => Ok(HttpResponse { status, body }),
    }
}

} // verus!
