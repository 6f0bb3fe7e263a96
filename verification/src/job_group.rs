//! Job groups: the process-group lineage that subprocesses spawned during
//! command substitution join, for signal and lifecycle management.

use vstd::prelude::*;

verus! {

/// A job group, identified by the job that created it.
///
/// This library never spawns subprocesses itself; the group is carried
/// through the operation context so that the command-substitution execution
/// path can attach the jobs it creates to the right lineage.
pub struct JobGroup {
    /// The identifier of the job heading the group.
    pub job_id: u64,
}

impl JobGroup {
    /// A group headed by the job `job_id`.
    pub fn new(job_id: u64) -> (r: JobGroup)
        ensures
            r.job_id == job_id,
    {
        JobGroup { job_id }
    }
}

} // verus!
