//! A verified core for managing Linux control groups (cgroups) through their
//! filesystem representation.
//!
//! The library computes every path, control-file payload and decision that the
//! cgroup filesystem protocol calls for, and proves those computations
//! correct. The actual filesystem and signal calls are performed by a thin
//! unverified layer built on top of these values.

mod cgroup;
mod command;
mod path;
mod scalar;
mod scoped;
mod tasks;
mod text;

pub use cgroup::{
    kill_poll_step, lemma_added_task_is_listed, Cgroup, CgroupError, CgroupName, FileWrite,
    KillPollStep, KILL_SIGNAL_ROUNDS,
};
pub use command::{tasks_paths, CgroupsCommandExt};
pub use path::join_path;
pub use scoped::{
    lemma_init_recreates_stale_empty, lemma_init_refuses_occupied, AutomanagedCgroup, InitAttempt,
    InitStep1, InitStep2, InitStep3, RecreatePending, TasksProbe,
};
pub use scalar::{lemma_set_get_round_trip, parse_i64, trim_newline_str, Scalar};
pub use tasks::parse_tasks_str;
pub use text::{i64_to_string, parse_u64, u64_to_string};
