use vstd::prelude::*;
use crate::status::{status_is, Code, Status};
use crate::text::{join, join_strings, views};

verus! {

/// The line reporting a file that could not be deleted.
pub open spec fn failed_deletion_line(file: Seq<char>) -> Seq<char> {
    "Failed deleting file "@ + file
}

/// The report of a batch deletion in which the files `failed` could not
/// be deleted, in order.
pub open spec fn deletion_outcome(failed: Seq<Seq<char>>) -> Option<(Code, Seq<char>)> {
    if failed.len() == 0 {
        None
    } else {
        Some((Code::DataLoss, join(failed.map_values(|f: Seq<char>| failed_deletion_line(f)), "\n"@)))
    }
}

/// Keeps track of a batch deletion, file by file.
pub struct DeletionReport {
    lines: Vec<String>,
    failed: Ghost<Seq<Seq<char>>>,
}

impl DeletionReport {
    /// The files that could not be deleted so far, in order.
    pub closed spec fn failed(&self) -> Seq<Seq<char>> {
        self.failed@
    }

    closed spec fn wf(&self) -> bool {
        &&& self.lines@.len() == self.failed@.len()
        &&& forall|i: int|
            0 <= i < self.lines@.len() ==> (#[trigger] self.lines@[i])@ == failed_deletion_line(
                self.failed@[i],
            )
    }

    /// A report in which nothing failed yet.
    pub fn new() -> (r: DeletionReport)
        ensures
            r.failed() == Seq::<Seq<char>>::empty(),
            r.well_formed(),
    {
        DeletionReport { lines: Vec::new(), failed: Ghost(Seq::empty()) }
    }

    /// The report is in a consistent state.
    pub closed spec fn well_formed(&self) -> bool {
        self.wf()
    }

    /// Records the outcome of deleting `file`.
    pub fn record(&mut self, file: &str, removed: bool)
        requires
            old(self).well_formed(),
        ensures
            final(self).well_formed(),
            removed ==> final(self).failed() == old(self).failed(),
            !removed ==> final(self).failed() == old(self).failed().push(file@),
    {
        if !removed {
            let mut line = String::new();
            line.append("Failed deleting file ");
            line.append(file);
            self.lines.push(line);
            self.failed = Ghost(self.failed@.push(file@));
            assert(self.lines@[self.lines@.len() - 1]@ == failed_deletion_line(file@));
        }
    }

    /// The answer to the batch: success when every file was deleted,
    /// otherwise data loss listing the failures, one per line.
    pub fn finish(self) -> (r: Result<(), Status>)
        requires
            self.well_formed(),
        ensures
            deletion_outcome(self.failed()) is None ==> r is Ok,
            deletion_outcome(self.failed()) matches Some((c, m)) ==> (r matches Err(s)
                && status_is(s, c, m)),
    {
        if self.lines.len() == 0 {
            return Ok(());
        }
        let message = join_strings(&self.lines, "\n");
        assert(views(self.lines@) =~= self.failed@.map_values(
            |f: Seq<char>| failed_deletion_line(f),
        ));
        Err(Status::with_message(Code::DataLoss, message))
    }
}

/// What `sysinfo` reports of one disk: whether it is mounted at `/`, and the
/// space available on it.
#[derive(Clone, Copy, Debug)]
pub struct DiskInfo {
    pub mounted_at_root: bool,
    pub available_space: u64,
}

/// Some disk is mounted at `/`.
pub open spec fn has_root_disk(disks: Seq<DiskInfo>) -> bool {
    exists|i: int| 0 <= i < disks.len() && (#[trigger] disks[i]).mounted_at_root
}

/// `i` is the first disk mounted at `/`.
pub open spec fn first_root_disk(disks: Seq<DiskInfo>, i: int) -> bool {
    &&& 0 <= i < disks.len()
    &&& disks[i].mounted_at_root
    &&& forall|j: int| 0 <= j < i ==> !(#[trigger] disks[j]).mounted_at_root
}

/// The available space a storage node reports in its heartbeat: that of
/// the first disk mounted at `/`, or of the first disk when none is.
pub fn available_space(disks: &Vec<DiskInfo>) -> (r: u64)
    requires
        disks@.len() > 0,
    ensures
        has_root_disk(disks@) ==> exists|i: int|
            first_root_disk(disks@, i) && r == (#[trigger] disks@[i]).available_space,
        !has_root_disk(disks@) ==> r == disks@[0].available_space,
{
    let mut i: usize = 0;
    while i < disks.len()
        invariant
            i <= disks@.len(),
            forall|j: int| 0 <= j < i ==> !(#[trigger] disks@[j]).mounted_at_root,
        decreases disks@.len() - i,
    {
        if disks[i].mounted_at_root {
            assert(first_root_disk(disks@, i as int));
            return disks[i].available_space;
        }
        i = i + 1;
    }
    disks[0].available_space
}

} // verus!
