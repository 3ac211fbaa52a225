//! Response envelopes shared by every operation, and the classification of
//! failures.

use vstd::prelude::*;

verus! {

/// The HTTP statuses that the operations answer with.
#[derive(Clone, Copy, Debug, PartialEq, Eq, Structural)]
pub enum StatusCode {
    Success,
    BadRequest,
    Unauthorized,
    NotFound,
    InternalServerError,
}

/// What went wrong, independent of the transport.
#[derive(Clone, Copy, Debug, PartialEq, Eq, Structural)]
pub enum ErrorKind {
    /// No identity, or a reference to a project the caller does not own.
    Unauthorized,
    /// The addressed todo does not exist for the caller.
    NotFound,
    /// The request conflicts with stored data, such as a taken username.
    ValidationError,
    /// The storage operation failed.
    PersistenceError,
    /// A stored session payload could not be decoded. It is handled by
    /// treating the caller as anonymous, and no response reports it.
    SerializationError,
}

impl StatusCode {
    /// The numeric status.
    pub open spec fn code(self) -> int {
        match self {
            StatusCode::Success => 200,
            StatusCode::BadRequest => 400,
            StatusCode::Unauthorized => 401,
            StatusCode::NotFound => 404,
            StatusCode::InternalServerError => 500,
        }
    }

    /// The failure that a status reports; `None` for a success.
    pub open spec fn kind(self) -> Option<ErrorKind> {
        match self {
            StatusCode::Success => None,
            StatusCode::BadRequest => Some(ErrorKind::ValidationError),
            StatusCode::Unauthorized => Some(ErrorKind::Unauthorized),
            StatusCode::NotFound => Some(ErrorKind::NotFound),
            StatusCode::InternalServerError => Some(ErrorKind::PersistenceError),
        }
    }

    /// The numeric status.
    pub fn as_u16(self) -> (code: u16)
        ensures
            code == self.code(),
    {
        match self {
            StatusCode::Success => 200,
            StatusCode::BadRequest => 400,
            StatusCode::Unauthorized => 401,
            StatusCode::NotFound => 404,
            StatusCode::InternalServerError => 500,
        }
    }

    /// The failure that the status reports; `None` for a success.
    pub fn error_kind(self) -> (kind: Option<ErrorKind>)
        ensures
            kind == self.kind(),
    {
        match self {
            StatusCode::Success => None,
            StatusCode::BadRequest => Some(ErrorKind::ValidationError),
            StatusCode::Unauthorized => Some(ErrorKind::Unauthorized),
            StatusCode::NotFound => Some(ErrorKind::NotFound),
            StatusCode::InternalServerError => Some(ErrorKind::PersistenceError),
        }
    }
}

/// The body of a failed response.
pub struct ErrorResponseBody {
    pub success: bool,
    pub message: String,
}

/// A failed response: a status and a message for the caller.
pub struct ErrorResponse {
    pub status_code: StatusCode,
    pub body: ErrorResponseBody,
}

impl ErrorResponse {
    /// Whether this is the failure with the given status and message.
    pub open spec fn has(self, status_code: StatusCode, message: Seq<char>) -> bool {
        &&& self.status_code == status_code
        &&& !self.body.success
        &&& self.body.message@ == message
    }

    /// The failure with this status and message.
    pub fn from(status_code: StatusCode, error_message: &str) -> (response: Self)
        ensures
            response.has(status_code, error_message@),
    {
        ErrorResponse {
            status_code,
            body: ErrorResponseBody { success: false, message: error_message.to_owned() },
        }
    }

    /// The failure that the response reports.
    pub fn kind(&self) -> (kind: Option<ErrorKind>)
        ensures
            kind == self.status_code.kind(),
    {
        self.status_code.error_kind()
    }
}

/// A successful response around its payload.
pub struct SuccessResponse<T> {
    pub success: bool,
    pub data: T,
}

impl<T> From<T> for SuccessResponse<T> {
    fn from(data: T) -> (response: Self) {
        SuccessResponse { success: true, data }
    }
}

impl<T> vstd::std_specs::convert::FromSpecImpl<T> for SuccessResponse<T> {
    open spec fn obeys_from_spec() -> bool {
        true
    }

    open spec fn from_spec(data: T) -> Self {
        SuccessResponse { success: true, data }
    }
}

/// The outcome of a step that may refuse.
pub type APIResult<T> = Result<T, ErrorResponse>;

/// The answer of an operation.
pub type APIResponse<T> = Result<SuccessResponse<T>, ErrorResponse>;

} // verus!
