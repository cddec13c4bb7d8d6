//! The uniform reply shape of the gateway: a successful reply passes the
//! upstream payload through unchanged; every failure is a `WebError` with a
//! `cause` text.

use vstd::prelude::*;

verus! {

/// The only failure shape returned to clients.
#[derive(Debug, Clone, PartialEq, Eq)]
pub struct WebError {
    pub success: bool,
    pub cause: String,
}

/// What the gateway answers a request with: either the upstream payload,
/// passed through unchanged, or a `WebError`.
#[derive(Debug, Clone, PartialEq, Eq)]
pub enum Reply {
    Success(String),
    Failure(WebError),
}

impl Reply {
    /// The HTTP status a reply is sent with: failures of every kind share one
    /// status and are told apart by the `cause` text alone.
    pub fn status(&self) -> (s: u16)
        ensures
            s == (if self is Success {
                200u16
            } else {
                400u16
            }),
    {
        match self {
            Reply::Success(_) => 200,
            Reply::Failure(_) => 400,
        }
    }
}

/// A successful upstream fetch: the payload goes out unchanged.
pub fn ok(value: String) -> (r: Reply)
    ensures
        r == Reply::Success(value),
{
    Reply::Success(value)
}

/// An upstream failure: the collaborator's own message is passed through
/// verbatim, never reinterpreted.
pub fn error_response(err: String) -> (r: Reply)
    ensures
        r == Reply::Failure(WebError { success: false, cause: err }),
{
    Reply::Failure(WebError { success: false, cause: err })
}

/// A local validation failure with a fixed descriptive cause.
pub fn bad_request(cause: &str) -> (r: Reply)
    ensures
        r matches Reply::Failure(w) && w.success == false && w.cause@ == cause@,
{
    Reply::Failure(WebError { success: false, cause: cause.to_owned() })
}

/// Translates the collaborator's fetch outcome into the reply shape: success
/// passes the payload through, failure carries the collaborator's message.
pub fn complete(fetched: Result<String, String>) -> (r: Reply)
    ensures
        fetched matches Ok(payload) ==> r == Reply::Success(payload),
        fetched matches Err(err) ==> r == Reply::Failure(
            WebError { success: false, cause: err },
        ),
{
    match fetched {
        Ok(payload) => ok(payload),
        Err(err) => error_response(err),
    }
}

} // verus!
