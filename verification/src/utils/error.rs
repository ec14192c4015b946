//! Errors of the recording and processing services.
use crate::text::{owned, push_all};
use vstd::prelude::*;

verus! {

/// Service errors.
#[derive(Debug)]
pub enum AppError {
    Recording(String),
    VideoProcessing(String),
    /// A database failure (its message).
    Database(String),
    Http(String),
    /// A file operation failure (its message).
    Io(String),
    FeatureGated,
    LicenseExpired,
    ServiceUnavailable { service: String, reason: String },
    CircuitBreakerOpen(String),
    RetryExhausted(String),
}

impl AppError {
    /// The error message.
    pub fn message(&self) -> (r: String)
        ensures
            r@ == (match *self {
                AppError::Recording(m) => "Recording error: "@ + m@,
                AppError::VideoProcessing(m) => "Video processing error: "@ + m@,
                AppError::Database(m) => "Database error: "@ + m@,
                AppError::Http(m) => "HTTP request error: "@ + m@,
                AppError::Io(m) => "IO error: "@ + m@,
                AppError::FeatureGated => "Feature not available in FREE tier"@,
                AppError::LicenseExpired => "License expired"@,
                AppError::ServiceUnavailable { service, reason } => "External service unavailable: "@
                    + service@ + " ("@ + reason@ + ")"@,
                AppError::CircuitBreakerOpen(m) => "Circuit breaker open for: "@ + m@,
                AppError::RetryExhausted(m) => "Retry exhausted: "@ + m@,
            }),
    {
        match self {
            AppError::Recording(m) => {
                let mut s = owned("Recording error: ");
                push_all(&mut s, m.as_str());
                s
            },
            AppError::VideoProcessing(m) => {
                let mut s = owned("Video processing error: ");
                push_all(&mut s, m.as_str());
                s
            },
            AppError::Database(m) => {
                let mut s = owned("Database error: ");
                push_all(&mut s, m.as_str());
                s
            },
            AppError::Http(m) => {
                let mut s = owned("HTTP request error: ");
                push_all(&mut s, m.as_str());
                s
            },
            AppError::Io(m) => {
                let mut s = owned("IO error: ");
                push_all(&mut s, m.as_str());
                s
            },
            AppError::FeatureGated => owned("Feature not available in FREE tier"),
            AppError::LicenseExpired => owned("License expired"),
            AppError::ServiceUnavailable { service, reason } => {
                let mut s = owned("External service unavailable: ");
                push_all(&mut s, service.as_str());
                push_all(&mut s, " (");
                push_all(&mut s, reason.as_str());
                push_all(&mut s, ")");
                s
            },
            AppError::CircuitBreakerOpen(m) => {
                let mut s = owned("Circuit breaker open for: ");
                push_all(&mut s, m.as_str());
                s
            },
            AppError::RetryExhausted(m) => {
                let mut s = owned("Retry exhausted: ");
                push_all(&mut s, m.as_str());
                s
            },
        }
    }
}

} // verus!
