//! The metadata service's calls as steps: each step holds what the call has
//! established so far, names the lookup or write the service performs next,
//! and takes its answer to reach the next step or the call's reply.
pub mod accounts;
pub mod documents;
pub mod sessions;
pub mod topics;
