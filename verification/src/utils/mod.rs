//! Service errors and the retry policy.

pub mod error;
pub mod retry;
pub mod logging;
