//! The command-line client's own logic: its tokens, checksums and password
//! hashes.
pub mod auth;
pub mod checksum;
pub mod password_hash;
pub mod validation;
