//! Verified core of the scientific-document service: the rules that decide
//! who may do what, the validation of account data, the wire texts the
//! services exchange, and the bookkeeping around stored files.
pub mod status;
pub mod text;
pub mod common;
pub mod validation;
pub mod json;
pub mod metadata;
pub mod ids;
pub mod metadata_server;
pub mod storage;
pub mod storage_server;
pub mod client;
