//! Payments: Toss Payments webhooks, subscriptions and the API client's
//! request rules.

pub mod webhook;
pub mod encoding;
pub mod tosspayments;
pub mod toss;
pub mod commands;
pub mod subscription_commands;
