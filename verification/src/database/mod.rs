//! Records of the local database.

pub mod models;
