//! The storage server: request gates and the instructions the metadata
//! service sends.
pub mod middleware;
pub mod storage;
