//! The storage server's service.
pub mod metadata_instructions;

use vstd::prelude::*;

verus! {

/// The storage server's service.
#[derive(Clone, Copy, Debug)]
pub struct Storage;

} // verus!
