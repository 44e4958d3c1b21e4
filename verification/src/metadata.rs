//! The metadata service's request authentication.
pub mod middleware;
