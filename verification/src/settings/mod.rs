//! Recording settings and the platform capability rules.

pub mod models;
pub mod platform_config;
