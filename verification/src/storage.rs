//! The storage service: the node that holds document files.
pub mod instructions;

use vstd::prelude::*;

verus! {

/// The storage service.
#[derive(Clone, Copy, Debug)]
pub struct Storage;

} // verus!
