//! Supabase connection settings, errors, and the rules of its REST and auth
//! requests.

pub mod client;
