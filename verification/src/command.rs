//! Process-launch integration: the paths a child process must be registered
//! in, immediately before its program begins executing.

use vstd::prelude::*;
use crate::cgroup::Cgroup;
use crate::path::spec_join;

verus! {

/// Extends a process-spawning facility with cgroup placement: the spawned
/// process is to be attached, before its program begins executing, to every
/// given cgroup, in the order given. The implementation lives beside the
/// process-spawning facility; the paths it writes to come from
/// [`tasks_paths`].
pub trait CgroupsCommandExt {
    /// Registers the given cgroups to receive the spawned process.
    fn cgroups(&mut self, cgroups: &[Cgroup]) -> &mut Self;
}

/// The task membership files of the given cgroups, in the order given: the
/// files a pre-execution hook writes the child's identifier into.
pub fn tasks_paths(cgroups: &[Cgroup]) -> (r: Vec<String>)
    ensures
        r@.len() == cgroups@.len(),
        forall|i: int|
            0 <= i < cgroups@.len() ==> (#[trigger] r@[i])@ == spec_join(
                cgroups@[i].root@,
                "tasks"@,
            ),
{
    let mut out: Vec<String> = Vec::new();
    let n = cgroups.len();
    let mut i: usize = 0;
    while i < n
        invariant
            0 <= i <= n == cgroups@.len(),
            out@.len() == i,
            forall|k: int|
                0 <= k < i ==> (#[trigger] out@[k])@ == spec_join(cgroups@[k].root@, "tasks"@),
        decreases n - i,
    {
        out.push(cgroups[i].tasks_absolute_path());
        i = i + 1;
    }
    out
}

} // verus!
