//! Application errors and the HTTP error body each one is answered with.

use vstd::prelude::*;

verus! {

/// Everything that can go wrong while serving a request.
///
/// Failures reported by the database, the HTTP client or the OAuth token
/// exchange carry the message of the underlying error.
#[derive(Debug)]
pub enum AppError {
    SQL(String),
    Request(String),
    TokenError(String),
    PayloadTooLarge,
    InvalidContentType,
    UnsupportedMediaType,
    Unauthorized,
    ParseIntError,
    FromRequestPartsError,
}

/// JSON error body: a machine-readable code, a human-readable message and
/// the HTTP status code of the response.
#[derive(Debug)]
pub struct ErrorResponse {
    pub code: &'static str,
    pub message: &'static str,
    pub status: u16,
}

/// The (code, message, status) triple that answers `e`.
pub open spec fn error_response_of(e: AppError) -> (Seq<char>, Seq<char>, u16) {
    match e {
        AppError::SQL(_) => ("sql_error"@, "Internal server error"@, 500u16),
        AppError::UnsupportedMediaType => (
            "unsupported_media_type"@,
            "Only valid image types are allowed (jpeg, png, gif, webp)"@,
            415u16,
        ),
        AppError::PayloadTooLarge => ("payload_too_large"@, "Upload too large"@, 413u16),
        AppError::InvalidContentType => ("invalid_content"@, "Expected multipart/form-data"@, 400u16),
        AppError::Request(_) => ("http_error"@, "Upstream request failed"@, 500u16),
        AppError::TokenError(_) => ("oauth_error"@, "OAuth token exchange failed"@, 502u16),
        AppError::Unauthorized => ("unauthorized"@, "Unauthorized"@, 401u16),
        AppError::ParseIntError => ("parse_int_error"@, "Parsing error"@, 500u16),
        AppError::FromRequestPartsError => ("extract_error"@, "Request extraction error"@, 500u16),
    }
}

impl AppError {
    /// The error body and status code this error is answered with.
    pub fn error_response(&self) -> (r: ErrorResponse)
        ensures
            (r.code@, r.message@, r.status) == error_response_of(*self),
    {
        match self {
            AppError::SQL(_) => ErrorResponse {
                code: "sql_error",
                message: "Internal server error",
                status: 500,
            },
            AppError::UnsupportedMediaType => ErrorResponse {
                code: "unsupported_media_type",
                message: "Only valid image types are allowed (jpeg, png, gif, webp)",
                status: 415,
            },
            AppError::PayloadTooLarge => ErrorResponse {
                code: "payload_too_large",
                message: "Upload too large",
                status: 413,
            },
            AppError::InvalidContentType => ErrorResponse {
                code: "invalid_content",
                message: "Expected multipart/form-data",
                status: 400,
            },
            AppError::Request(_) => ErrorResponse {
                code: "http_error",
                message: "Upstream request failed",
                status: 500,
            },
            AppError::TokenError(_) => ErrorResponse {
                code: "oauth_error",
                message: "OAuth token exchange failed",
                status: 502,
            },
            AppError::Unauthorized => ErrorResponse {
                code: "unauthorized",
                message: "Unauthorized",
                status: 401,
            },
            AppError::ParseIntError => ErrorResponse {
                code: "parse_int_error",
                message: "Parsing error",
                status: 500,
            },
            AppError::FromRequestPartsError => ErrorResponse {
                code: "extract_error",
                message: "Request extraction error",
                status: 500,
            },
        }
    }
}

} // verus!
