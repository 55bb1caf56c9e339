//! The decisions of the HTTP endpoints.

pub mod auth;
pub mod file;
pub mod posts;
