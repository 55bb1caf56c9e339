//! The records that the service stores and returns.

pub mod auth;
pub mod post;
