//! Application errors and the API error response body they map to.
//!
//! Variants that carried an error value of another library hold that
//! error's message; the HTTP transport itself stays with the binary, which
//! turns an [`ApiError`] into a response.

use vstd::prelude::*;

verus! {

/// The application's error type, returned by the service layer.
#[derive(Clone, Debug, PartialEq)]
pub enum AppError {
    Unauthorized,
    Forbidden,
    BadRequest(String),
    UnprocessableEntity,
    NotFound(String),
    ObjectConflict(String),
    InternalServerError,
    InternalServerErrorWithMessage(String),
    /// A store item could not be decoded into a model; holds the
    /// decoder's message.
    SerdeDynamoError(String),
    /// Any other wrapped error, by its message.
    AnyhowError(String),
}

pub type AppResult<T> = Result<T, AppError>;

/// API error response body: a numeric status code, a message, and the
/// status text, following the common JSON API error shape.
#[derive(Clone, Debug, PartialEq)]
pub struct ApiError {
    pub code: u16,
    pub message: String,
    pub status: String,
}

impl ApiError {
    pub fn new(code: u16, message: &str, status: &str) -> (r: ApiError)
        ensures
            r.code == code,
            r.message@ == message@,
            r.status@ == status@,
    {
        ApiError {
            code,
            message: String::from_str(message),
            status: String::from_str(status),
        }
    }
}

/// The HTTP status code an [`AppError`] maps to.
pub open spec fn status_code_of(e: AppError) -> u16 {
    match e {
        AppError::Unauthorized => 401,
        AppError::Forbidden => 403,
        AppError::BadRequest(_) => 400,
        AppError::UnprocessableEntity => 422,
        AppError::NotFound(_) => 404,
        AppError::ObjectConflict(_) => 409,
        AppError::InternalServerError => 500,
        AppError::InternalServerErrorWithMessage(_) => 500,
        AppError::SerdeDynamoError(_) => 500,
        AppError::AnyhowError(_) => 500,
    }
}

/// The response message an [`AppError`] maps to: its own message where it
/// carries one meant for the client, a fixed text otherwise.
pub open spec fn message_of(e: AppError) -> Seq<char> {
    match e {
        AppError::Unauthorized => "Authentication is required to access this resource"@,
        AppError::Forbidden => "User is not authorized to access this resource"@,
        AppError::BadRequest(msg) => msg@,
        AppError::UnprocessableEntity => "Unprocessable entity request"@,
        AppError::NotFound(msg) => msg@,
        AppError::ObjectConflict(msg) => msg@,
        AppError::InternalServerErrorWithMessage(msg) => msg@,
        _ => "Internal Server Error"@,
    }
}

/// The status text an [`AppError`] maps to.
pub open spec fn status_text_of(e: AppError) -> Seq<char> {
    match e {
        AppError::Unauthorized => "Unauthorized"@,
        AppError::Forbidden => "Forbidden"@,
        AppError::BadRequest(_) => "Bad Request"@,
        AppError::UnprocessableEntity => "Unprocessable Entity"@,
        AppError::NotFound(_) => "Not Found"@,
        AppError::ObjectConflict(_) => "Conflict"@,
        _ => "Internal Server Error"@,
    }
}

impl AppError {
    /// The API error response body this error maps to: exactly the status
    /// code, message and status text of [`status_code_of`],
    /// [`message_of`] and [`status_text_of`].
    pub fn to_api_error(self) -> (r: ApiError)
        ensures
            r.code == status_code_of(self),
            r.message@ == message_of(self),
            r.status@ == status_text_of(self),
    {
        match self {
            AppError::Unauthorized => ApiError::new(
                401,
                "Authentication is required to access this resource",
                "Unauthorized",
            ),
            AppError::Forbidden => ApiError::new(
                403,
                "User is not authorized to access this resource",
                "Forbidden",
            ),
            AppError::BadRequest(msg) => ApiError {
                code: 400,
                message: msg,
                status: String::from_str("Bad Request"),
            },
            AppError::UnprocessableEntity => ApiError::new(
                422,
                "Unprocessable entity request",
                "Unprocessable Entity",
            ),
            AppError::NotFound(msg) => ApiError {
                code: 404,
                message: msg,
                status: String::from_str("Not Found"),
            },
            AppError::ObjectConflict(msg) => ApiError {
                code: 409,
                message: msg,
                status: String::from_str("Conflict"),
            },
            AppError::InternalServerErrorWithMessage(msg) => ApiError {
                code: 500,
                message: msg,
                status: String::from_str("Internal Server Error"),
            },
            _ => ApiError::new(500, "Internal Server Error", "Internal Server Error"),
        }
    }
}

} // verus!
