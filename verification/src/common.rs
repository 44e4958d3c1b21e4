//! Pieces shared by every service: account rules, token claims, credentials
//! and the request gates.
pub mod valid;
pub mod types;
pub mod auth;
pub mod middleware;
