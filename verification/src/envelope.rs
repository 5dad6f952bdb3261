//! The uniform response envelope: every endpoint answers either
//! `{status, data}` on success or `{status, message}` on failure, where
//! the status tag is `"fail"` for expected client errors and `"error"`
//! for unexpected internal ones.

use vstd::prelude::*;

verus! {

/// The two kinds of failure the envelope distinguishes. They are mapped
/// to the string tags `"fail"` and `"error"` only at serialization time.
#[derive(Clone, Copy, PartialEq, Eq, Structural, Debug)]
pub enum Status {
    ClientError,
    InternalError,
}

/// A terminal failure of one request: the HTTP-equivalent code, the
/// envelope's status tag, and the user-visible message.
#[derive(Debug)]
pub struct ApiError {
    pub status: Status,
    pub code: u16,
    pub message: String,
}

/// The string tag that `status` serializes to.
pub open spec fn status_tag_spec(s: Status) -> Seq<char> {
    if s == Status::ClientError {
        "fail"@
    } else {
        "error"@
    }
}

/// An error is a uniform 401-class rejection: client-caused, code 401.
pub open spec fn is_unauthorized(e: ApiError) -> bool {
    e.status == Status::ClientError && e.code == 401
}

impl ApiError {
    /// An expected client error, tagged `"fail"`.
    pub fn fail(code: u16, message: &str) -> (r: ApiError)
        ensures
            r.status == Status::ClientError,
            r.code == code,
            r.message@ == message@,
    {
        ApiError { status: Status::ClientError, code, message: message.to_owned() }
    }

    /// An unexpected internal error, tagged `"error"`, code 500.
    pub fn internal(message: &str) -> (r: ApiError)
        ensures
            r.status == Status::InternalError,
            r.code == 500,
            r.message@ == message@,
    {
        ApiError { status: Status::InternalError, code: 500, message: message.to_owned() }
    }

    /// The status tag of this error's envelope.
    pub fn status_tag(&self) -> (r: &'static str)
        ensures
            r@ == status_tag_spec(self.status),
    {
        match self.status {
            Status::ClientError => "fail",
            Status::InternalError => "error",
        }
    }
}

/// A constant `{status, message}` response body.
pub struct StatusMessage {
    pub status: String,
    pub message: String,
}

/// The body of the health-check endpoint's answer.
pub fn health_check_response() -> (r: StatusMessage)
    ensures
        r.status@ == "success"@,
        r.message@ == "Local Hotel API is alive and well"@,
{
    StatusMessage {
        status: "success".to_owned(),
        message: "Local Hotel API is alive and well".to_owned(),
    }
}

/// The body answered for a route that does not exist.
pub fn not_found_response() -> (r: StatusMessage)
    ensures
        r.status@ == "fail"@,
        r.message@ == "Content not found"@,
{
    StatusMessage { status: "fail".to_owned(), message: "Content not found".to_owned() }
}

} // verus!
