//! Errors reported to the frontend: a code and a message for each kind.
use crate::text::{owned, push_all};
use vstd::prelude::*;

verus! {

/// Application errors.
#[derive(Debug)]
pub enum AppError {
    Database(String),
    Network(String),
    Io(String),
    Video(String),
    Lcu(String),
    Auth(String),
    Validation(String),
    NotFound(String),
    Internal(String),
}

/// Code and message prefix of each kind.
pub open spec fn error_parts(e: AppError) -> (Seq<char>, Seq<char>, Seq<char>) {
    match e {
        AppError::Database(m) => ("DATABASE_ERROR"@, "Database error: "@, m@),
        AppError::Network(m) => ("NETWORK_ERROR"@, "Network error: "@, m@),
        AppError::Io(m) => ("IO_ERROR"@, "File system error: "@, m@),
        AppError::Video(m) => ("VIDEO_ERROR"@, "Video processing error: "@, m@),
        AppError::Lcu(m) => ("LCU_ERROR"@, "LCU (League Client) error: "@, m@),
        AppError::Auth(m) => ("AUTH_ERROR"@, "Authentication error: "@, m@),
        AppError::Validation(m) => ("VALIDATION_ERROR"@, "Validation error: "@, m@),
        AppError::NotFound(m) => ("NOT_FOUND"@, "Resource not found: "@, m@),
        AppError::Internal(m) => ("INTERNAL_ERROR"@, "Internal system error: "@, m@),
    }
}

impl AppError {
    /// The error code sent to the frontend.
    pub fn code(&self) -> (r: &'static str)
        ensures
            r@ == error_parts(*self).0,
    {
        match self {
            AppError::Database(_) => "DATABASE_ERROR",
            AppError::Network(_) => "NETWORK_ERROR",
            AppError::Io(_) => "IO_ERROR",
            AppError::Video(_) => "VIDEO_ERROR",
            AppError::Lcu(_) => "LCU_ERROR",
            AppError::Auth(_) => "AUTH_ERROR",
            AppError::Validation(_) => "VALIDATION_ERROR",
            AppError::NotFound(_) => "NOT_FOUND",
            AppError::Internal(_) => "INTERNAL_ERROR",
        }
    }

    /// The error message.
    pub fn message(&self) -> (r: String)
        ensures
            r@ == error_parts(*self).1 + error_parts(*self).2,
    {
        let (prefix, detail) = match self {
            AppError::Database(m) => ("Database error: ", m),
            AppError::Network(m) => ("Network error: ", m),
            AppError::Io(m) => ("File system error: ", m),
            AppError::Video(m) => ("Video processing error: ", m),
            AppError::Lcu(m) => ("LCU (League Client) error: ", m),
            AppError::Auth(m) => ("Authentication error: ", m),
            AppError::Validation(m) => ("Validation error: ", m),
            AppError::NotFound(m) => ("Resource not found: ", m),
            AppError::Internal(m) => ("Internal system error: ", m),
        };
        let mut s = owned(prefix);
        push_all(&mut s, detail.as_str());
        s
    }
}

} // verus!
