//! The scoped cgroup handle: a cgroup whose directory is created when the
//! handle is initialized and removed when the handle's scope ends.
//!
//! Initialization follows a fixed recovery policy, driven here as a state
//! machine over the outcomes of the filesystem calls: a first creation
//! attempt; on failure, a probe of the existing directory's task list; if the
//! directory is a stale, unoccupied leftover, a best-effort removal and one
//! retried creation. The filesystem calls themselves are carried out by an
//! unverified caller, which feeds each outcome back into the machine; every
//! decision of the policy is made, and proved, here.

use vstd::prelude::*;
use crate::cgroup::{spec_root, Cgroup, CgroupName, FileWrite};
use crate::path::spec_join;
use crate::scalar::Scalar;
use crate::text::dec_rep_signed;

verus! {

/// An active scoped handle: its directory was created (or recreated) on
/// initialization, held no tasks at that moment, and is to be removed, best
/// effort, when the handle's scope ends.
#[derive(Debug)]
pub struct AutomanagedCgroup {
    /// The underlying cgroup whose directory this handle owns.
    pub cgroup: Cgroup,
}

/// The machine right after construction: the directory at `cgroup.root` is
/// to be created, and the outcome reported to `on_create`.
#[derive(Debug)]
pub struct InitAttempt {
    /// The cgroup whose directory is to be created.
    pub cgroup: Cgroup,
}

/// The machine after a failed first creation: the task membership file of
/// the existing directory is to be read, and the outcome reported to
/// `on_tasks`.
#[derive(Debug)]
pub struct TasksProbe {
    /// The cgroup whose directory already exists.
    pub cgroup: Cgroup,
    /// The error of the first creation attempt, to be propagated if the
    /// existing directory cannot be taken over.
    pub create_error: String,
}

/// The machine after a stale, unoccupied directory was found: it is to be
/// removed (ignoring the outcome) and created again, and the outcome of the
/// creation reported to `on_create`.
#[derive(Debug)]
pub struct RecreatePending {
    /// The cgroup whose stale directory is to be removed and created again.
    pub cgroup: Cgroup,
}

/// What follows the first creation attempt.
#[derive(Debug)]
pub enum InitStep1 {
    /// The directory was created: the handle is active.
    Active(AutomanagedCgroup),
    /// Creation failed: probe the existing directory's task list.
    CheckTasks(TasksProbe),
}

/// What follows the task-list probe.
#[derive(Debug)]
pub enum InitStep2 {
    /// Initialization failed, with the error to surface. The existing
    /// directory is left untouched.
    Failed(String),
    /// The directory is a stale, unoccupied leftover: remove it, best
    /// effort, and create it again.
    Recreate(RecreatePending),
}

/// What follows the retried creation.
#[derive(Debug)]
pub enum InitStep3 {
    /// The directory was recreated: the handle is active.
    Active(AutomanagedCgroup),
    /// The retried creation failed, with its own error to surface.
    Failed(String),
}

/// The decision after the first creation attempt: success activates the
/// handle, failure demands a probe of the existing directory's task list.
pub open spec fn spec_on_create(a: InitAttempt, outcome: Result<(), String>) -> InitStep1 {
    match outcome {
        Ok(_) => InitStep1::Active(AutomanagedCgroup { cgroup: a.cgroup }),
        Err(e) => InitStep1::CheckTasks(TasksProbe { cgroup: a.cgroup, create_error: e }),
    }
}

/// The decision after the task-list probe: an unreadable task list or a live
/// task propagates the original creation error; an empty task list marks the
/// directory as a stale leftover to be removed and created again.
pub open spec fn spec_on_tasks(p: TasksProbe, outcome: Result<Vec<i32>, String>) -> InitStep2 {
    match outcome {
        Ok(ts) => if ts@.len() > 0 {
            InitStep2::Failed(p.create_error)
        } else {
            InitStep2::Recreate(RecreatePending { cgroup: p.cgroup })
        },
        Err(_) => InitStep2::Failed(p.create_error),
    }
}

/// The decision after the retried creation: success activates the handle,
/// failure surfaces the retried creation's own error.
pub open spec fn spec_on_recreate(p: RecreatePending, outcome: Result<(), String>) -> InitStep3 {
    match outcome {
        Ok(_) => InitStep3::Active(AutomanagedCgroup { cgroup: p.cgroup }),
        Err(e) => InitStep3::Failed(e),
    }
}

impl AutomanagedCgroup {
    /// Begins initializing a scoped handle for a cgroup in a given
    /// subsystem: builds the underlying cgroup and hands back the machine
    /// awaiting the first creation attempt on its directory.
    pub fn init(cgroup_name: &CgroupName, subsystem: &str) -> (r: InitAttempt)
        ensures
            r.cgroup.root@ == spec_root(cgroup_name.mount_point@, subsystem@, cgroup_name.name@),
    {
        InitAttempt { cgroup: Cgroup::new(cgroup_name, subsystem) }
    }

    /// The underlying cgroup, every operation of which this handle exposes.
    pub fn cgroup(&self) -> (r: &Cgroup)
        ensures
            *r == self.cgroup,
    {
        &self.cgroup
    }

    /// Delegates to [`Cgroup::value_absolute_path`].
    pub fn value_absolute_path(&self, key: &str) -> (r: String)
        ensures
            r@ == spec_join(self.cgroup.root@, key@),
    {
        self.cgroup.value_absolute_path(key)
    }

    /// Delegates to [`Cgroup::tasks_absolute_path`].
    pub fn tasks_absolute_path(&self) -> (r: String)
        ensures
            r@ == spec_join(self.cgroup.root@, "tasks"@),
    {
        self.cgroup.tasks_absolute_path()
    }

    /// Delegates to [`Cgroup::set_raw_value`].
    pub fn set_raw_value(&self, key: &str, value: &str) -> (w: FileWrite)
        ensures
            w.path@ == spec_join(self.cgroup.root@, key@),
            w.contents@ == value@,
    {
        self.cgroup.set_raw_value(key, value)
    }

    /// Delegates to [`Cgroup::set_value`].
    pub fn set_value<V: Scalar>(&self, key: &str, value: V) -> (w: FileWrite)
        ensures
            w.path@ == spec_join(self.cgroup.root@, key@),
            w.contents@ == value.text_of(),
    {
        self.cgroup.set_value(key, value)
    }

    /// Delegates to [`Cgroup::add_task`].
    pub fn add_task(&self, pid: i32) -> (w: FileWrite)
        ensures
            w.path@ == spec_join(self.cgroup.root@, "tasks"@),
            w.contents@ == dec_rep_signed(pid as int),
    {
        self.cgroup.add_task(pid)
    }
}

impl InitAttempt {
    /// Feeds in the outcome of the first creation attempt on the directory.
    pub fn on_create(self, outcome: Result<(), String>) -> (r: InitStep1)
        ensures
            r == spec_on_create(self, outcome),
    {
        match outcome {
            Ok(_) => InitStep1::Active(AutomanagedCgroup { cgroup: self.cgroup }),
            Err(e) => InitStep1::CheckTasks(
                TasksProbe { cgroup: self.cgroup, create_error: e },
            ),
        }
    }
}

impl TasksProbe {
    /// Feeds in the outcome of reading the existing directory's task list.
    pub fn on_tasks(self, outcome: Result<Vec<i32>, String>) -> (r: InitStep2)
        ensures
            r == spec_on_tasks(self, outcome),
    {
        match outcome {
            Ok(ts) => if ts.len() > 0 {
                InitStep2::Failed(self.create_error)
            } else {
                InitStep2::Recreate(RecreatePending { cgroup: self.cgroup })
            },
            Err(_) => InitStep2::Failed(self.create_error),
        }
    }
}

impl RecreatePending {
    /// Feeds in the outcome of the retried creation of the directory.
    pub fn on_create(self, outcome: Result<(), String>) -> (r: InitStep3)
        ensures
            r == spec_on_recreate(self, outcome),
    {
        match outcome {
            Ok(_) => InitStep3::Active(AutomanagedCgroup { cgroup: self.cgroup }),
            Err(e) => InitStep3::Failed(e),
        }
    }
}

/// Initialization over a mount point that already holds an empty, unoccupied
/// directory of the same name succeeds: the failed first creation leads to
/// the task-list probe, the empty task list marks the directory stale, and a
/// successful recreation activates the handle on the same cgroup.
pub proof fn lemma_init_recreates_stale_empty(a: InitAttempt, e: String, ts: Vec<i32>)
    requires
        ts@.len() == 0,
    ensures
        ({
            let p = TasksProbe { cgroup: a.cgroup, create_error: e };
            let rp = RecreatePending { cgroup: a.cgroup };
            &&& spec_on_create(a, Err(e)) == InitStep1::CheckTasks(p)
            &&& spec_on_tasks(p, Ok(ts)) == InitStep2::Recreate(rp)
            &&& spec_on_recreate(rp, Ok(())) == InitStep3::Active(
                AutomanagedCgroup { cgroup: a.cgroup },
            )
        }),
{
}

/// Initialization over a directory that holds at least one live task fails
/// with the original creation error and leaves the directory untouched: the
/// machine ends in `Failed`, and only a `Recreate` step ever instructs a
/// removal.
pub proof fn lemma_init_refuses_occupied(a: InitAttempt, e: String, ts: Vec<i32>)
    requires
        ts@.len() > 0,
    ensures
        ({
            let p = TasksProbe { cgroup: a.cgroup, create_error: e };
            &&& spec_on_create(a, Err(e)) == InitStep1::CheckTasks(p)
            &&& spec_on_tasks(p, Ok(ts)) == InitStep2::Failed(e)
        }),
{
}

} // verus!
