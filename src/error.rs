//! The fixed kinds of failure, their codes and statuses, and the error shape
//! of the response envelope.

use crate::validation::FieldError;
use vstd::prelude::*;
use vstd::string::*;

verus! {

/// Every failure falls under one of these kinds.
#[derive(Clone, Copy, Debug, PartialEq, Eq, Structural)]
pub enum ErrorKind {
    /// The payload broke a field rule.
    Validation,
    /// An identifier in the path is not identifier text.
    BadRequest,
    /// No record matched.
    NotFound,
    /// The store failed, or broke its read-your-writes guarantee.
    Internal,
}

/// The machine-readable code of a kind.
pub open spec fn kind_code(k: ErrorKind) -> Seq<char> {
    match k {
        ErrorKind::Validation => "VALIDATION_ERROR"@,
        ErrorKind::BadRequest => "BAD_REQUEST"@,
        ErrorKind::NotFound => "NOT_FOUND"@,
        ErrorKind::Internal => "INTERNAL_SERVER_ERROR"@,
    }
}

/// The HTTP status of a kind.
pub open spec fn kind_status(k: ErrorKind) -> u16 {
    match k {
        ErrorKind::Validation => 400,
        ErrorKind::BadRequest => 400,
        ErrorKind::NotFound => 404,
        ErrorKind::Internal => 500,
    }
}

/// The reason phrase of the statuses that errors carry.
pub open spec fn status_reason(status: u16) -> Seq<char> {
    if status == 400 {
        "Bad Request"@
    } else if status == 404 {
        "Not Found"@
    } else {
        "Internal Server Error"@
    }
}

impl ErrorKind {
    /// The machine-readable code.
    pub fn code(&self) -> (r: &'static str)
        ensures
            r@ == kind_code(*self),
    {
        match self {
            ErrorKind::Validation => "VALIDATION_ERROR",
            ErrorKind::BadRequest => "BAD_REQUEST",
            ErrorKind::NotFound => "NOT_FOUND",
            ErrorKind::Internal => "INTERNAL_SERVER_ERROR",
        }
    }

    /// The HTTP status.
    pub fn status(&self) -> (r: u16)
        ensures
            r == kind_status(*self),
    {
        match self {
            ErrorKind::Validation => 400,
            ErrorKind::BadRequest => 400,
            ErrorKind::NotFound => 404,
            ErrorKind::Internal => 500,
        }
    }
}

/// The `error` member of an error envelope.
#[derive(Clone, Debug)]
pub struct ErrorDetails {
    pub code: String,
    pub message: String,
    pub details: Option<Vec<FieldError>>,
}

/// An error envelope: `success` is false, and `status` is the HTTP status it
/// is sent with.
#[derive(Clone, Debug)]
pub struct ApiError {
    pub success: bool,
    pub error: ErrorDetails,
    pub status: u16,
}

impl ApiError {
    /// Whether this envelope is the error of kind `k`: its code and status
    /// are those of `k`, and only a validation error carries details.
    pub open spec fn is_kind(&self, k: ErrorKind) -> bool {
        &&& !self.success
        &&& self.error.code@ == kind_code(k)
        &&& self.status == kind_status(k)
        &&& (self.error.details.is_some() <==> k == ErrorKind::Validation)
    }

    /// The error envelope of a kind other than validation, with a message.
    pub fn new(kind: ErrorKind, message: &str) -> (r: ApiError)
        requires
            kind != ErrorKind::Validation,
        ensures
            r.is_kind(kind),
            r.error.message@ == message@,
    {
        ApiError {
            success: false,
            error: ErrorDetails {
                code: String::from_str(kind.code()),
                message: String::from_str(message),
                details: None,
            },
            status: kind.status(),
        }
    }

    /// The validation error envelope, carrying the violated fields.
    pub fn validation(message: &str, details: Vec<FieldError>) -> (r: ApiError)
        ensures
            r.is_kind(ErrorKind::Validation),
            r.error.message@ == message@,
            r.error.details == Some(details),
    {
        let kind = ErrorKind::Validation;
        ApiError {
            success: false,
            error: ErrorDetails {
                code: String::from_str(kind.code()),
                message: String::from_str(message),
                details: Some(details),
            },
            status: kind.status(),
        }
    }

    /// The same envelope with `details` set.
    pub fn with_details(self, details: Vec<FieldError>) -> (r: ApiError)
        ensures
            r.success == self.success,
            r.status == self.status,
            r.error.code == self.error.code,
            r.error.message == self.error.message,
            r.error.details == Some(details),
    {
        ApiError {
            success: self.success,
            error: ErrorDetails {
                code: self.error.code,
                message: self.error.message,
                details: Some(details),
            },
            status: self.status,
        }
    }
}

/// A plain error body: the status's reason phrase and a message.
#[derive(Clone, Debug)]
pub struct ErrorResponse {
    pub error: String,
    pub message: String,
}

impl ErrorResponse {
    /// The plain body of an error envelope: its status's reason phrase and its
    /// message.
    pub fn from_api_error(e: &ApiError) -> (r: ErrorResponse)
        ensures
            r.error@ == status_reason(e.status),
            r.message@ == e.error.message@,
    {
        let reason = if e.status == 400 {
            "Bad Request"
        } else if e.status == 404 {
            "Not Found"
        } else {
            "Internal Server Error"
        };
        ErrorResponse { error: String::from_str(reason), message: e.error.message.clone() }
    }
}

} // verus!
