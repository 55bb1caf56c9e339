//! Verified core of a small social-network backend: identifiers, session
//! tokens, password checks, upload and file-lookup rules, GraphQL decision
//! logic and the shaping of rows into the records that the API returns.

pub mod ids;
pub mod text;
pub mod clock;
pub mod config;
pub mod model;
pub mod jwt_auth;
pub mod password;
pub mod reply;
pub mod handlers;
pub mod graphql;
