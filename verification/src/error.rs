//! Application errors and how they are answered.
use vstd::prelude::*;

verus! {

/// An error of a request.
#[derive(Debug, Clone, PartialEq, Eq)]
pub enum AppError {
    /// A failure of the database, with its description.
    Database(String),
    NotFound,
    Validation(String),
    Unauthorized,
    Forbidden,
    BadRequest(String),
    Internal(String),
    Conflict(String),
}

/// The parts of the answer to a failed request: HTTP status, error code and message.
#[derive(Debug, Clone, PartialEq, Eq)]
pub struct ErrorResponse {
    pub status: u16,
    pub code: String,
    pub message: String,
}

impl AppError {
    pub open spec fn status_spec(self) -> u16 {
        match self {
            AppError::Database(_) => 500,
            AppError::NotFound => 404,
            AppError::Validation(_) => 422,
            AppError::Unauthorized => 401,
            AppError::Forbidden => 403,
            AppError::BadRequest(_) => 400,
            AppError::Internal(_) => 500,
            AppError::Conflict(_) => 409,
        }
    }

    pub open spec fn code_spec(self) -> Seq<char> {
        match self {
            AppError::Database(_) => "database_error"@,
            AppError::NotFound => "not_found"@,
            AppError::Validation(_) => "validation_error"@,
            AppError::Unauthorized => "unauthorized"@,
            AppError::Forbidden => "forbidden"@,
            AppError::BadRequest(_) => "bad_request"@,
            AppError::Internal(_) => "internal_error"@,
            AppError::Conflict(_) => "conflict"@,
        }
    }

    /// The message shown to the client: the detail of validation, bad-request and
    /// conflict errors; a fixed text for the others, so that database and internal
    /// details stay in the log.
    pub open spec fn public_message_spec(self) -> Seq<char> {
        match self {
            AppError::Database(_) => "Internal database error"@,
            AppError::NotFound => "Resource not found"@,
            AppError::Validation(m) => m@,
            AppError::Unauthorized => "Unauthorized"@,
            AppError::Forbidden => "Forbidden"@,
            AppError::BadRequest(m) => m@,
            AppError::Internal(_) => "Internal server error"@,
            AppError::Conflict(m) => m@,
        }
    }

    /// The description of the error.
    pub open spec fn text(self) -> Seq<char> {
        match self {
            AppError::Database(m) => "database error: "@ + m@,
            AppError::NotFound => "not found"@,
            AppError::Validation(m) => "validation error: "@ + m@,
            AppError::Unauthorized => "unauthorized"@,
            AppError::Forbidden => "forbidden"@,
            AppError::BadRequest(m) => "bad request: "@ + m@,
            AppError::Internal(m) => "internal error: "@ + m@,
            AppError::Conflict(m) => "conflict: "@ + m@,
        }
    }

    /// The answer to a request that failed with this error.
    pub fn response(&self) -> (r: ErrorResponse)
        ensures
            r.status == self.status_spec(),
            r.code@ == self.code_spec(),
            r.message@ == self.public_message_spec(),
    {
        match self {
            AppError::Database(_) => ErrorResponse {
                status: 500,
                code: String::from_str("database_error"),
                message: String::from_str("Internal database error"),
            },
            AppError::NotFound => ErrorResponse {
                status: 404,
                code: String::from_str("not_found"),
                message: String::from_str("Resource not found"),
            },
            AppError::Validation(m) => ErrorResponse {
                status: 422,
                code: String::from_str("validation_error"),
                message: m.clone(),
            },
            AppError::Unauthorized => ErrorResponse {
                status: 401,
                code: String::from_str("unauthorized"),
                message: String::from_str("Unauthorized"),
            },
            AppError::Forbidden => ErrorResponse {
                status: 403,
                code: String::from_str("forbidden"),
                message: String::from_str("Forbidden"),
            },
            AppError::BadRequest(m) => ErrorResponse {
                status: 400,
                code: String::from_str("bad_request"),
                message: m.clone(),
            },
            AppError::Internal(_) => ErrorResponse {
                status: 500,
                code: String::from_str("internal_error"),
                message: String::from_str("Internal server error"),
            },
            AppError::Conflict(m) => ErrorResponse {
                status: 409,
                code: String::from_str("conflict"),
                message: m.clone(),
            },
        }
    }

    /// The line to log for the error, for database and internal errors only.
    pub fn log_line(&self) -> (r: Option<String>)
        ensures
            match self {
                AppError::Database(m) => r matches Some(l) && l@ == "database error: "@ + m@,
                AppError::Internal(m) => r matches Some(l) && l@ == "internal error: "@ + m@,
                _ => r is None,
            },
    {
        match self {
            AppError::Database(m) => Some(String::from_str("database error: ").concat(m.as_str())),
            AppError::Internal(m) => Some(String::from_str("internal error: ").concat(m.as_str())),
            _ => None,
        }
    }

    /// The description of the error.
    pub fn message(&self) -> (r: String)
        ensures
            r@ == self.text(),
    {
        match self {
            AppError::Database(m) => String::from_str("database error: ").concat(m.as_str()),
            AppError::NotFound => String::from_str("not found"),
            AppError::Validation(m) => String::from_str("validation error: ").concat(m.as_str()),
            AppError::Unauthorized => String::from_str("unauthorized"),
            AppError::Forbidden => String::from_str("forbidden"),
            AppError::BadRequest(m) => String::from_str("bad request: ").concat(m.as_str()),
            AppError::Internal(m) => String::from_str("internal error: ").concat(m.as_str()),
            AppError::Conflict(m) => String::from_str("conflict: ").concat(m.as_str()),
        }
    }
}

} // verus!
