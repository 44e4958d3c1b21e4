//! The metadata service's request handling decisions.
pub mod handlers;
pub mod messages;
pub mod metadata;
