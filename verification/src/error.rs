use vstd::prelude::*;

verus! {

/// The error codes of the Twirp protocol.
#[derive(Debug, Clone, Copy, PartialEq, Eq, Structural)]
pub enum ErrorCode {
    Canceled,
    Unknown,
    InvalidArgument,
    DeadlineExceeded,
    NotFound,
    BadRoute,
    AlreadyExists,
    PermissionDenied,
    Unauthenticated,
    ResourceExhausted,
    FailedPrecondition,
    Aborted,
    OutOfRange,
    Unimplemented,
    Internal,
    Unavailable,
    Dataloss,
}

/// The HTTP status that the Twirp protocol assigns to an error code.
pub open spec fn http_status_of(code: ErrorCode) -> i16 {
    match code {
        ErrorCode::Canceled => 408,
        ErrorCode::Unknown => 500,
        ErrorCode::InvalidArgument => 400,
        ErrorCode::DeadlineExceeded => 408,
        ErrorCode::NotFound => 404,
        ErrorCode::BadRoute => 404,
        ErrorCode::AlreadyExists => 409,
        ErrorCode::PermissionDenied => 403,
        ErrorCode::Unauthenticated => 401,
        ErrorCode::ResourceExhausted => 403,
        ErrorCode::FailedPrecondition => 412,
        ErrorCode::Aborted => 409,
        ErrorCode::OutOfRange => 400,
        ErrorCode::Unimplemented => 501,
        ErrorCode::Internal => 500,
        ErrorCode::Unavailable => 503,
        ErrorCode::Dataloss => 500,
    }
}

impl ErrorCode {
    /// Returns the http status code corresponding to the Twirp error code.
    pub fn to_http_status_code(&self) -> (status: i16)
        ensures
            status == http_status_of(*self),
    {
        match self {
            ErrorCode::Canceled => 408,
            ErrorCode::Unknown => 500,
            ErrorCode::InvalidArgument => 400,
            ErrorCode::DeadlineExceeded => 408,
            ErrorCode::NotFound => 404,
            ErrorCode::BadRoute => 404,
            ErrorCode::AlreadyExists => 409,
            ErrorCode::PermissionDenied => 403,
            ErrorCode::Unauthenticated => 401,
            ErrorCode::ResourceExhausted => 403,
            ErrorCode::FailedPrecondition => 412,
            ErrorCode::Aborted => 409,
            ErrorCode::OutOfRange => 400,
            ErrorCode::Unimplemented => 501,
            ErrorCode::Internal => 500,
            ErrorCode::Unavailable => 503,
            ErrorCode::Dataloss => 500,
        }
    }
}

/// Every error code is answered with a client error (4xx) or a server
/// error (5xx) status, never with a success or redirect status.
pub proof fn lemma_status_is_error_class(code: ErrorCode)
    ensures
        400 <= http_status_of(code) <= 599,
{
}

/// A Twirp error: a code and a human readable message.
#[derive(Debug, Clone)]
pub struct Error {
    pub code: ErrorCode,
    pub msg: String,
}

/// A message turned into an error is an `Internal` error carrying that message.
impl From<String> for Error {
    fn from(s: String) -> (e: Self)
        ensures
            e.code == ErrorCode::Internal,
            e.msg == s,
    {
        Error { code: ErrorCode::Internal, msg: s }
    }
}

impl vstd::std_specs::convert::FromSpecImpl<String> for Error {
    open spec fn obeys_from_spec() -> bool {
        true
    }

    open spec fn from_spec(v: String) -> Self {
        Error { code: ErrorCode::Internal, msg: v }
    }
}

/// A static message turned into an error is an `Internal` error carrying a
/// copy of that message.
impl From<&'static str> for Error {
    fn from(s: &'static str) -> (e: Self)
        ensures
            e.code == ErrorCode::Internal,
            e.msg@ == s@,
    {
        Error { code: ErrorCode::Internal, msg: s.to_owned() }
    }
}

impl vstd::std_specs::convert::FromSpecImpl<&'static str> for Error {
    open spec fn obeys_from_spec() -> bool {
        false
    }

    open spec fn from_spec(v: &'static str) -> Self {
        Error { code: ErrorCode::Internal, msg: arbitrary() }
    }
}

/// An error made from a message is answered with status 500.
pub proof fn lemma_message_error_is_server_error(msg: String)
    ensures
        http_status_of(<Error as vstd::std_specs::convert::FromSpec<String>>::from_spec(msg).code)
            == 500,
{
}

} // verus!
