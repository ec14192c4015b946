//! Core logic of the LoLShorts recorder: input validation, lockfile parsing,
//! recording state machines, event filtering, clip selection and the
//! payment bookkeeping rules, each with a machine-checked contract.

pub mod text;
pub mod clock;
pub mod circuit_breaker;
pub mod settings;
pub mod recording;
pub mod lcu;
pub mod security;
pub mod payments;
pub mod hotkey;
pub mod video;
pub mod supabase;
pub mod auth;
pub mod feature_gate;
pub mod storage;
pub mod error;
pub mod utils;
pub mod database;
pub mod youtube;
