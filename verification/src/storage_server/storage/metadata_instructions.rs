use vstd::prelude::*;
use crate::status::{status_is, Code, Status};

verus! {

/// The answer to a request to delete one file, given whether its removal
/// succeeded.
pub fn file_removal_outcome(removed: bool) -> (r: Result<(), Status>)
    ensures
        removed ==> r is Ok,
        !removed ==> (r matches Err(s) && status_is(s, Code::NotFound, "File not found"@)),
{
    if !removed {
        return Err(Status::new(Code::NotFound, "File not found"));
    }
    Ok(())
}

} // verus!
