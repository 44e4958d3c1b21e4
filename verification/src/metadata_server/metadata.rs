//! Decisions of the private (authenticated) and public metadata calls.
pub mod private;
pub mod public;
