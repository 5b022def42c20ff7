use vstd::prelude::*;

verus! {

/// The two ways a query can fail.
#[derive(Clone, Copy, Debug, PartialEq, Eq, Structural)]
pub enum ErrorKind {
    /// The metric could not be obtained from dynamic system introspection
    /// (uptime, load average, network interfaces and counters).
    NotFound,
    /// The metric depends on host configuration or identity that is absent
    /// or invalid (CPU temperature, memory, mounts, hostname).
    BadRequest,
}

/// A failed query: its kind, and the provider's description of the failure.
#[derive(Clone, Debug)]
pub struct ApiError {
    pub kind: ErrorKind,
    pub message: String,
}

/// HTTP status of a successful reply.
pub const STATUS_OK: u16 = 200;

/// HTTP status of a `BadRequest` failure.
pub const STATUS_BAD_REQUEST: u16 = 400;

/// HTTP status of a `NotFound` failure.
pub const STATUS_NOT_FOUND: u16 = 404;

/// The status that a reply of this kind carries.
pub open spec fn kind_status(kind: ErrorKind) -> u16 {
    match kind {
        ErrorKind::NotFound => STATUS_NOT_FOUND,
        ErrorKind::BadRequest => STATUS_BAD_REQUEST,
    }
}

/// The status of a reply: 200 on success, the error kind's status otherwise.
pub open spec fn reply_status<T>(r: Result<T, ApiError>) -> u16 {
    match r {
        Ok(_) => STATUS_OK,
        Err(e) => kind_status(e.kind),
    }
}

/// `r` is a failure of the given kind whose message reads `msg`.
pub open spec fn fails_with<T>(r: Result<T, ApiError>, kind: ErrorKind, msg: Seq<char>) -> bool {
    &&& r is Err
    &&& r->Err_0.kind == kind
    &&& r->Err_0.message@ == msg
}

impl ErrorKind {
    /// The HTTP status of this kind: 404 for `NotFound`, 400 for `BadRequest`.
    pub fn status_code(&self) -> (r: u16)
        ensures
            r == kind_status(*self),
    {
        match self {
            ErrorKind::NotFound => STATUS_NOT_FOUND,
            ErrorKind::BadRequest => STATUS_BAD_REQUEST,
        }
    }
}

impl ApiError {
    /// A failure of the given kind carrying `message`.
    pub fn new(kind: ErrorKind, message: String) -> (r: ApiError)
        ensures
            r.kind == kind,
            r.message == message,
    {
        ApiError { kind, message }
    }

    /// The HTTP status of this failure.
    pub fn status_code(&self) -> (r: u16)
        ensures
            r == kind_status(self.kind),
    {
        self.kind.status_code()
    }
}

/// The HTTP status of a reply: 200 for `Ok`, the failure's status for `Err`.
pub fn status_of<T>(r: &Result<T, ApiError>) -> (s: u16)
    ensures
        s == reply_status(*r),
{
    match r {
        Ok(_) => STATUS_OK,
        Err(e) => e.status_code(),
    }
}

/// Files a provider failure under `NotFound`, keeping its text; a success
/// passes through unchanged.
pub fn not_found<T>(queried: Result<T, String>) -> (r: Result<T, ApiError>)
    ensures
        match queried {
            Ok(v) => r == Ok::<T, ApiError>(v),
            Err(m) => fails_with(r, ErrorKind::NotFound, m@),
        },
{
    match queried {
        Ok(v) => Ok(v),
        Err(m) => Err(ApiError::new(ErrorKind::NotFound, m)),
    }
}

/// Files a provider failure under `BadRequest`, keeping its text; a success
/// passes through unchanged.
pub fn bad_request<T>(queried: Result<T, String>) -> (r: Result<T, ApiError>)
    ensures
        match queried {
            Ok(v) => r == Ok::<T, ApiError>(v),
            Err(m) => fails_with(r, ErrorKind::BadRequest, m@),
        },
{
    match queried {
        Ok(v) => Ok(v),
        Err(m) => Err(ApiError::new(ErrorKind::BadRequest, m)),
    }
}

} // verus!
