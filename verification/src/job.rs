use vstd::prelude::*;

verus! {

/// An opaque, immutable unit of deferred work, known to the scheduler only by
/// its identity. The executable action paired with an id lives with the
/// embedding program; the dispatch logic never looks inside a job.
#[derive(Clone, Copy, PartialEq, Eq, Structural, Debug)]
pub struct Job {
    pub id: u64,
}

impl Job {
    /// Creates a job descriptor; nothing is executed.
    pub fn new(id: u64) -> (j: Job)
        ensures
            j.id == id,
    {
        Job { id }
    }
}

} // verus!
