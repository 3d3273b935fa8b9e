//! Naming and addressing cgroup namespaces, and the computations behind every
//! operation on one: control-file paths, control-file payloads, task-list
//! parsing, and the decisions of the bounded termination loop.

use vstd::prelude::*;
use crate::path::{join_path, spec_join};
use crate::scalar::{trim_newline, trim_newline_str, Scalar};
use crate::tasks::{parse_tasks_str, spec_parse_tasks};
use crate::text::{dec_rep_signed, i64_to_string};

verus! {

/// The fixed mount root of the cgroup virtual filesystem.
pub open spec fn spec_mount_point() -> Seq<char> {
    "/sys/fs/cgroup"@
}

/// A cgroup name: pure addressing data, independent of any subsystem.
///
/// `name` is a relative path segment; an empty name denotes the root cgroup
/// of a subsystem. Constructing a name performs no filesystem interaction.
#[derive(Debug, Clone)]
pub struct CgroupName {
    /// The mount root of the cgroup filesystem, fixed at construction.
    pub mount_point: String,
    /// The relative name of the cgroup, possibly empty.
    pub name: String,
}

impl CgroupName {
    /// Defines a new cgroup name under the fixed mount point.
    pub fn new(name: &str) -> (r: CgroupName)
        ensures
            r.mount_point@ == spec_mount_point(),
            r.name@ == name@,
    {
        CgroupName { mount_point: "/sys/fs/cgroup".to_owned(), name: name.to_owned() }
    }
}

/// The directory of a cgroup: the mount root, the subsystem label and the
/// cgroup name joined in that order.
pub open spec fn spec_root(mount_point: Seq<char>, subsystem: Seq<char>, name: Seq<char>) -> Seq<
    char,
> {
    spec_join(spec_join(mount_point, subsystem), name)
}

/// A write of a whole payload to one file, computed here and carried out by
/// an unverified caller.
#[derive(Debug, Clone)]
pub struct FileWrite {
    /// The file to write.
    pub path: String,
    /// The full contents to write to it.
    pub contents: String,
}

/// The error of a failed control-file value read: the contents could not be
/// parsed as the requested type. The message is deliberately generic; the
/// kernel's text is not echoed back.
#[derive(Debug, Clone, Copy, PartialEq, Eq, Structural)]
pub enum CgroupError {
    /// The control file's contents do not match the requested scalar type.
    CouldNotParse,
}

impl CgroupError {
    /// The descriptive message of the error.
    pub fn message(&self) -> (r: String)
        ensures
            r@ == "could not parse the value"@,
    {
        "could not parse the value".to_owned()
    }
}

/// A controller of a specific cgroup namespace: one directory in the cgroup
/// filesystem, derived once from a name and a subsystem label. It is
/// stateless beyond the directory path, which never changes.
#[derive(Debug, Clone)]
pub struct Cgroup {
    /// The cgroup's directory in the cgroup filesystem.
    pub root: String,
}

impl Cgroup {
    /// Defines a cgroup relation: `mount_point/subsystem/name`. Creates
    /// nothing on the filesystem.
    pub fn new(cgroup_name: &CgroupName, subsystem: &str) -> (r: Cgroup)
        ensures
            r.root@ == spec_root(cgroup_name.mount_point@, subsystem@, cgroup_name.name@),
    {
        let base = join_path(cgroup_name.mount_point.as_str(), subsystem);
        Cgroup { root: join_path(base.as_str(), cgroup_name.name.as_str()) }
    }

    /// The absolute path of the control file for a key under this cgroup.
    pub fn value_absolute_path(&self, key: &str) -> (r: String)
        ensures
            r@ == spec_join(self.root@, key@),
    {
        join_path(self.root.as_str(), key)
    }

    /// The absolute path of this cgroup's task membership file.
    pub fn tasks_absolute_path(&self) -> (r: String)
        ensures
            r@ == spec_join(self.root@, "tasks"@),
    {
        join_path(self.root.as_str(), "tasks")
    }

    /// The write that sets a raw value on a control file: the given bytes,
    /// verbatim, to `root/key`.
    pub fn set_raw_value(&self, key: &str, value: &str) -> (w: FileWrite)
        ensures
            w.path@ == spec_join(self.root@, key@),
            w.contents@ == value@,
    {
        FileWrite { path: self.value_absolute_path(key), contents: value.to_owned() }
    }

    /// The write that sets a typed value on a control file: the value's
    /// canonical text rendering to `root/key`.
    pub fn set_value<V: Scalar>(&self, key: &str, value: V) -> (w: FileWrite)
        ensures
            w.path@ == spec_join(self.root@, key@),
            w.contents@ == value.text_of(),
    {
        let text = value.to_text();
        self.set_raw_value(key, text.as_str())
    }

    /// Parses the raw contents of a control file as a typed value, after
    /// removing a single trailing line terminator.
    pub fn get_value<T: Scalar>(raw: &str) -> (r: Result<T, CgroupError>)
        ensures
            match T::spec_parse(trim_newline(raw@)) {
                Some(v) => r == Ok::<T, CgroupError>(v),
                None => r == Err::<T, CgroupError>(CgroupError::CouldNotParse),
            },
    {
        let trimmed = trim_newline_str(raw);
        match T::parse_text(trimmed) {
            Some(v) => Ok(v),
            None => Err(CgroupError::CouldNotParse),
        }
    }

    /// The write that attaches a task to this cgroup: the decimal task
    /// identifier to the task membership file.
    pub fn add_task(&self, pid: i32) -> (w: FileWrite)
        ensures
            w.path@ == spec_join(self.root@, "tasks"@),
            w.contents@ == dec_rep_signed(pid as int),
    {
        FileWrite { path: self.tasks_absolute_path(), contents: i64_to_string(pid as i64) }
    }

    /// Parses the raw contents of a task membership file: whitespace-separated
    /// decimal task identifiers. Returns nothing at all if any token is
    /// malformed, a condition the surrounding layer treats as unrecoverable.
    pub fn parse_tasks(raw: &str) -> (r: Option<Vec<i32>>)
        ensures
            match spec_parse_tasks(raw@) {
                Some(ts) => r is Some && r.unwrap()@ == ts,
                None => r is None,
            },
    {
        parse_tasks_str(raw)
    }
}

/// Membership round trip: the payload [`Cgroup::add_task`] writes for a task
/// identifier, read back as the whole membership file, lists exactly that
/// task — so a task just attached is contained in the tasks read afterwards.
pub proof fn lemma_added_task_is_listed(pid: i32)
    requires
        pid >= 0,
    ensures
        spec_parse_tasks(dec_rep_signed(pid as int)) == Some(seq![pid]),
{
    crate::text::lemma_dec_rep_val(pid as nat);
    crate::tasks::lemma_single_token_tasks(dec_rep_signed(pid as int));
}

/// The retry budget of the bounded termination loop.
pub const KILL_SIGNAL_ROUNDS: u64 = 100;

/// The decision after one round of the termination loop.
#[derive(Debug, Clone, Copy, PartialEq, Eq, Structural)]
pub enum KillPollStep {
    /// A round observed no tasks: the loop stops, successfully.
    Finished,
    /// Tasks remain and rounds remain: sleep briefly and signal again.
    RetryAfterSleep,
    /// Tasks remained after the last round: report survivors.
    Survivors,
}

/// Decides one round of the bounded termination loop, after `observed_tasks`
/// tasks were signalled in round `rounds_done`: stop successfully as soon as
/// a round observes no tasks, retry while rounds remain, and report survivors
/// once the budget is exhausted. The loop is explicitly best-effort: a
/// workload that forks faster than it is killed can outlive the budget.
pub fn kill_poll_step(rounds_done: u64, observed_tasks: usize) -> (r: KillPollStep)
    requires
        rounds_done < KILL_SIGNAL_ROUNDS,
    ensures
        observed_tasks == 0 ==> r == KillPollStep::Finished,
        observed_tasks != 0 && rounds_done + 1 < KILL_SIGNAL_ROUNDS ==> r
            == KillPollStep::RetryAfterSleep,
        observed_tasks != 0 && rounds_done + 1 == KILL_SIGNAL_ROUNDS ==> r
            == KillPollStep::Survivors,
{
    if observed_tasks == 0 {
        KillPollStep::Finished
    } else if rounds_done + 1 < KILL_SIGNAL_ROUNDS {
        KillPollStep::RetryAfterSleep
    } else {
        KillPollStep::Survivors
    }
}

} // verus!
