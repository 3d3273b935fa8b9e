//! Tests of path construction, control-value round trips, task-list parsing,
//! the scoped-handle recovery policy, and the termination-loop decisions.

use cgroups_fs::{
    join_path, kill_poll_step, parse_i64, parse_u64, tasks_paths, u64_to_string,
    AutomanagedCgroup, Cgroup, CgroupError, CgroupName, InitStep1, InitStep2, InitStep3,
    KillPollStep, Scalar, KILL_SIGNAL_ROUNDS,
};

#[test]
fn join_inserts_separator() {
    assert_eq!(join_path("/sys/fs/cgroup", "memory").as_str(), "/sys/fs/cgroup/memory");
}

#[test]
fn join_keeps_base_for_empty_child() {
    assert_eq!(join_path("/sys/fs/cgroup/memory", "").as_str(), "/sys/fs/cgroup/memory");
}

#[test]
fn cgroup_root_is_mount_subsystem_name() {
    let name = CgroupName::new("my-cgroup");
    let cg = Cgroup::new(&name, "memory");
    assert_eq!(cg.root.as_str(), "/sys/fs/cgroup/memory/my-cgroup");
}

#[test]
fn root_cgroup_has_empty_name() {
    let name = CgroupName::new("");
    let cg = Cgroup::new(&name, "memory");
    assert_eq!(cg.root.as_str(), "/sys/fs/cgroup/memory");
}

#[test]
fn tasks_path_is_under_root() {
    let name = CgroupName::new("my-cgroup");
    let cg = Cgroup::new(&name, "cpu");
    assert_eq!(cg.tasks_absolute_path().as_str(), "/sys/fs/cgroup/cpu/my-cgroup/tasks");
}

#[test]
fn value_path_is_under_root() {
    let name = CgroupName::new("my-cgroup");
    let cg = Cgroup::new(&name, "memory");
    assert_eq!(
        cg.value_absolute_path("memory.limit_in_bytes").as_str(),
        "/sys/fs/cgroup/memory/my-cgroup/memory.limit_in_bytes"
    );
}

#[test]
fn u64_renders_in_decimal() {
    assert_eq!(u64_to_string(0).as_str(), "0");
    assert_eq!(u64_to_string(42).as_str(), "42");
    assert_eq!(u64_to_string(u64::MAX).as_str(), "18446744073709551615");
}

#[test]
fn u64_parses_back() {
    assert_eq!(parse_u64("0"), Some(0));
    assert_eq!(parse_u64("007"), Some(7));
    assert_eq!(parse_u64("18446744073709551615"), Some(u64::MAX));
}

#[test]
fn u64_parse_rejects_malformed() {
    assert_eq!(parse_u64(""), None);
    assert_eq!(parse_u64("12a"), None);
    assert_eq!(parse_u64("-1"), None);
    assert_eq!(parse_u64("18446744073709551616"), None);
}

#[test]
fn i64_round_trips_signs() {
    assert_eq!(parse_i64("42"), Some(42));
    assert_eq!(parse_i64("-1"), Some(-1));
    assert_eq!((-1i64).to_text().as_str(), "-1");
    assert_eq!(i64::MIN.to_text().as_str(), "-9223372036854775808");
    assert_eq!(parse_i64("-9223372036854775808"), Some(i64::MIN));
    assert_eq!(parse_i64("-9223372036854775809"), None);
    assert_eq!(parse_i64("9223372036854775808"), None);
}

#[test]
fn bool_renders_as_zero_or_one() {
    assert_eq!(true.to_text().as_str(), "1");
    assert_eq!(false.to_text().as_str(), "0");
    assert_eq!(bool::parse_text("1"), Some(true));
    assert_eq!(bool::parse_text("0"), Some(false));
    assert_eq!(bool::parse_text("2"), None);
    assert_eq!(bool::parse_text(""), None);
}

#[test]
fn set_value_renders_the_value() {
    let name = CgroupName::new("my-cgroup");
    let cg = Cgroup::new(&name, "memory");
    let w = cg.set_value("memory.limit_in_bytes", 1073741824u64);
    assert_eq!(w.path.as_str(), "/sys/fs/cgroup/memory/my-cgroup/memory.limit_in_bytes");
    assert_eq!(w.contents.as_str(), "1073741824");
}

#[test]
fn set_value_renders_negative_i64() {
    let name = CgroupName::new("my-cgroup");
    let cg = Cgroup::new(&name, "memory");
    let w = cg.set_value("memory.limit_in_bytes", -1i64);
    assert_eq!(w.contents.as_str(), "-1");
    assert_eq!(Cgroup::get_value::<i64>("-1\n"), Ok(-1));
}

#[test]
fn set_raw_value_is_verbatim() {
    let name = CgroupName::new("my-cgroup");
    let cg = Cgroup::new(&name, "memory");
    let w = cg.set_raw_value("memory.swappiness", "60\n");
    assert_eq!(w.path.as_str(), "/sys/fs/cgroup/memory/my-cgroup/memory.swappiness");
    assert_eq!(w.contents.as_str(), "60\n");
}

#[test]
fn get_value_after_set_value_round_trips() {
    let name = CgroupName::new("my-cgroup");
    let cg = Cgroup::new(&name, "memory");
    let w = cg.set_value("memory.limit_in_bytes", 65536u64);
    // What was written is read back, with the line terminator the kernel
    // appends on read.
    let mut echoed = w.contents.clone();
    echoed.push('\n');
    assert_eq!(Cgroup::get_value::<u64>(&echoed), Ok(65536));
    assert_eq!(Cgroup::get_value::<u64>(&w.contents), Ok(65536));
}

#[test]
fn get_value_trims_one_line_terminator() {
    assert_eq!(Cgroup::get_value::<u64>("123\n"), Ok(123));
    assert_eq!(Cgroup::get_value::<u64>("123"), Ok(123));
    assert_eq!(Cgroup::get_value::<bool>("1\n"), Ok(true));
}

#[test]
fn get_value_fails_with_generic_parse_error() {
    assert_eq!(Cgroup::get_value::<u64>("unlimited\n"), Err(CgroupError::CouldNotParse));
    assert_eq!(Cgroup::get_value::<u64>(""), Err(CgroupError::CouldNotParse));
    assert_eq!(Cgroup::get_value::<u64>("12 3\n"), Err(CgroupError::CouldNotParse));
    assert_eq!(CgroupError::CouldNotParse.message().as_str(), "could not parse the value");
}

#[test]
fn root_memory_usage_parses_as_u64() {
    // The root cgroup of the memory subsystem: an empty name, no directory
    // creation, and a non-negative usage value read from its control file.
    let name = CgroupName::new("");
    let cg = Cgroup::new(&name, "memory");
    let path = cg.value_absolute_path("memory.usage_in_bytes");
    assert_eq!(path.as_str(), "/sys/fs/cgroup/memory/memory.usage_in_bytes");
    let read_back = Cgroup::get_value::<u64>("123456789\n");
    assert_eq!(read_back, Ok(123456789));
}

#[test]
fn add_task_writes_decimal_pid_to_tasks_file() {
    let name = CgroupName::new("my-cgroup");
    let cg = Cgroup::new(&name, "memory");
    let w = cg.add_task(12345);
    assert_eq!(w.path.as_str(), "/sys/fs/cgroup/memory/my-cgroup/tasks");
    assert_eq!(w.contents.as_str(), "12345");
}

#[test]
fn added_task_is_listed_again() {
    let name = CgroupName::new("my-cgroup");
    let cg = Cgroup::new(&name, "memory");
    let w = cg.add_task(4242);
    let listed = Cgroup::parse_tasks(&w.contents).unwrap();
    assert!(listed.contains(&4242));
    assert_eq!(listed, vec![4242]);
}

#[test]
fn empty_tasks_file_lists_no_tasks() {
    assert_eq!(Cgroup::parse_tasks(""), Some(vec![]));
    assert_eq!(Cgroup::parse_tasks("\n"), Some(vec![]));
    // An empty cgroup: zero tasks observed, so a signalling pass over the
    // list attempts no delivery and reports a count of zero.
    assert_eq!(Cgroup::parse_tasks("").unwrap().len(), 0);
}

#[test]
fn tasks_file_splits_on_whitespace() {
    assert_eq!(Cgroup::parse_tasks("1 2\n3\n"), Some(vec![1, 2, 3]));
    assert_eq!(Cgroup::parse_tasks("\n\n17\n"), Some(vec![17]));
    assert_eq!(Cgroup::parse_tasks("\t 5 \r\n 6 "), Some(vec![5, 6]));
}

#[test]
fn malformed_task_token_is_unrecoverable() {
    assert_eq!(Cgroup::parse_tasks("12a"), None);
    assert_eq!(Cgroup::parse_tasks("1 -2"), None);
    assert_eq!(Cgroup::parse_tasks("99999999999999"), None);
}

#[test]
fn init_activates_on_plain_creation() {
    let name = CgroupName::new("fresh");
    let attempt = AutomanagedCgroup::init(&name, "memory");
    assert_eq!(attempt.cgroup.root.as_str(), "/sys/fs/cgroup/memory/fresh");
    match attempt.on_create(Ok(())) {
        InitStep1::Active(handle) => {
            assert_eq!(handle.cgroup.root.as_str(), "/sys/fs/cgroup/memory/fresh");
        }
        InitStep1::CheckTasks(_) => panic!("creation succeeded, the handle must be active"),
    }
}

#[test]
fn init_recreates_stale_empty_directory() {
    let name = CgroupName::new("stale");
    let attempt = AutomanagedCgroup::init(&name, "memory");
    let probe = match attempt.on_create(Err(String::from("already exists"))) {
        InitStep1::CheckTasks(probe) => probe,
        InitStep1::Active(_) => panic!("creation failed, the tasks must be probed"),
    };
    assert_eq!(probe.cgroup.root.as_str(), "/sys/fs/cgroup/memory/stale");
    let pending = match probe.on_tasks(Ok(vec![])) {
        InitStep2::Recreate(pending) => pending,
        InitStep2::Failed(_) => panic!("an empty directory is stale and must be recreated"),
    };
    match pending.on_create(Ok(())) {
        InitStep3::Active(handle) => {
            assert_eq!(handle.cgroup.root.as_str(), "/sys/fs/cgroup/memory/stale");
        }
        InitStep3::Failed(_) => panic!("recreation succeeded, the handle must be active"),
    }
}

#[test]
fn init_refuses_occupied_directory() {
    let name = CgroupName::new("occupied");
    let attempt = AutomanagedCgroup::init(&name, "memory");
    let probe = match attempt.on_create(Err(String::from("already exists"))) {
        InitStep1::CheckTasks(probe) => probe,
        InitStep1::Active(_) => panic!("creation failed, the tasks must be probed"),
    };
    // One live task in the directory: the original creation error comes
    // back, and no removal step is ever issued.
    match probe.on_tasks(Ok(vec![4321])) {
        InitStep2::Failed(error) => assert_eq!(error.as_str(), "already exists"),
        InitStep2::Recreate(_) => panic!("an occupied directory must not be stolen"),
    }
}

#[test]
fn init_propagates_error_when_tasks_unreadable() {
    let name = CgroupName::new("odd");
    let attempt = AutomanagedCgroup::init(&name, "memory");
    let probe = match attempt.on_create(Err(String::from("permission denied"))) {
        InitStep1::CheckTasks(probe) => probe,
        InitStep1::Active(_) => panic!("creation failed, the tasks must be probed"),
    };
    match probe.on_tasks(Err(String::from("no such file"))) {
        InitStep2::Failed(error) => assert_eq!(error.as_str(), "permission denied"),
        InitStep2::Recreate(_) => panic!("an unreadable directory must not be recreated"),
    }
}

#[test]
fn init_surfaces_second_creation_error() {
    let name = CgroupName::new("flaky");
    let attempt = AutomanagedCgroup::init(&name, "memory");
    let probe = match attempt.on_create(Err(String::from("already exists"))) {
        InitStep1::CheckTasks(probe) => probe,
        InitStep1::Active(_) => panic!("creation failed, the tasks must be probed"),
    };
    let pending = match probe.on_tasks(Ok(vec![])) {
        InitStep2::Recreate(pending) => pending,
        InitStep2::Failed(_) => panic!("an empty directory is stale and must be recreated"),
    };
    match pending.on_create(Err(String::from("still there"))) {
        InitStep3::Failed(error) => assert_eq!(error.as_str(), "still there"),
        InitStep3::Active(_) => panic!("recreation failed, the handle must not be active"),
    }
}

#[test]
fn scoped_handle_delegates_to_inner_cgroup() {
    let name = CgroupName::new("scoped");
    let attempt = AutomanagedCgroup::init(&name, "memory");
    let handle = match attempt.on_create(Ok(())) {
        InitStep1::Active(handle) => handle,
        InitStep1::CheckTasks(_) => panic!("creation succeeded, the handle must be active"),
    };
    assert_eq!(handle.tasks_absolute_path().as_str(), "/sys/fs/cgroup/memory/scoped/tasks");
    assert_eq!(handle.cgroup().root.as_str(), "/sys/fs/cgroup/memory/scoped");
    let w = handle.set_value("memory.limit_in_bytes", 4096u64);
    assert_eq!(w.contents.as_str(), "4096");
    let w = handle.add_task(7);
    assert_eq!(w.path.as_str(), "/sys/fs/cgroup/memory/scoped/tasks");
    assert_eq!(w.contents.as_str(), "7");
}

#[test]
fn kill_loop_stops_as_soon_as_no_tasks_remain() {
    assert_eq!(kill_poll_step(0, 0), KillPollStep::Finished);
    assert_eq!(kill_poll_step(KILL_SIGNAL_ROUNDS - 1, 0), KillPollStep::Finished);
}

#[test]
fn kill_loop_retries_while_rounds_remain() {
    assert_eq!(kill_poll_step(0, 3), KillPollStep::RetryAfterSleep);
    assert_eq!(kill_poll_step(KILL_SIGNAL_ROUNDS - 2, 1), KillPollStep::RetryAfterSleep);
}

#[test]
fn kill_loop_reports_survivors_when_budget_exhausted() {
    assert_eq!(kill_poll_step(KILL_SIGNAL_ROUNDS - 1, 1), KillPollStep::Survivors);
}

#[test]
fn tasks_paths_keep_the_given_order() {
    let name = CgroupName::new("child");
    let memory = Cgroup::new(&name, "memory");
    let cpu = Cgroup::new(&name, "cpu");
    let paths = tasks_paths(&[memory, cpu]);
    assert_eq!(paths.len(), 2);
    assert_eq!(paths[0].as_str(), "/sys/fs/cgroup/memory/child/tasks");
    assert_eq!(paths[1].as_str(), "/sys/fs/cgroup/cpu/child/tasks");
}
