use ash::builtin::Builtin;
use ash::process::{child_finished, child_plan, classify_fork, dispatch, ChildPlan, Dispatch, Fork};
use ash::text::split_args;

#[test]
fn blank_line_dispatches_nothing() {
    assert_eq!(dispatch(&split_args("  \t ")), Dispatch::Idle);
    assert_eq!(dispatch(&split_args("")), Dispatch::Idle);
}

#[test]
fn builtins_run_in_process() {
    assert_eq!(dispatch(&split_args("cd /tmp")), Dispatch::RunBuiltin(Builtin::Cd));
    assert_eq!(dispatch(&split_args("  exit")), Dispatch::RunBuiltin(Builtin::Exit));
    assert_eq!(dispatch(&split_args("echo -n hi")), Dispatch::RunBuiltin(Builtin::Echo));
}

#[test]
fn other_commands_spawn() {
    assert_eq!(dispatch(&split_args("ls -l")), Dispatch::Spawn);
    assert_eq!(dispatch(&split_args("PWD")), Dispatch::Spawn);
}

#[test]
fn fork_results() {
    assert_eq!(classify_fork(0), Fork::Child);
    assert_eq!(classify_fork(-1), Fork::Failed);
    assert_eq!(classify_fork(4242), Fork::Parent(4242));
}

#[test]
fn exit_zero_finishes_wait() {
    assert!(child_finished(0));
}

#[test]
fn exit_code_finishes_wait() {
    assert!(child_finished(1 << 8));
    assert!(child_finished(127 << 8));
}

#[test]
fn signal_finishes_wait() {
    assert!(child_finished(9));
    assert!(child_finished(15 | 0x80));
}

#[test]
fn stopped_child_is_waited_again() {
    assert!(!child_finished((19 << 8) | 0x7f));
    assert!(!child_finished(0x7f));
}

#[test]
fn found_command_is_executed() {
    match child_plan("ls", true, Some("/bin/ls".to_string())) {
        ChildPlan::Exec(p) => assert_eq!(p, "/bin/ls"),
        ChildPlan::Fail(m) => panic!("unexpected failure {}", m),
    }
}

#[test]
fn missing_command_reports_its_name() {
    match child_plan("frobnicate", true, None) {
        ChildPlan::Fail(m) => assert_eq!(m, "ash: frobnicate: command not found"),
        ChildPlan::Exec(p) => panic!("unexpected exec {}", p),
    }
}

#[test]
fn missing_search_list_is_reported() {
    match child_plan("ls", false, None) {
        ChildPlan::Fail(m) => assert_eq!(m, "ash: PATH is not set"),
        ChildPlan::Exec(p) => panic!("unexpected exec {}", p),
    }
}

#[test]
fn same_command_twice_decides_alike() {
    let first = split_args("ls -a");
    let second = split_args("ls -a");
    assert_eq!(dispatch(&first), Dispatch::Spawn);
    assert_eq!(dispatch(&second), Dispatch::Spawn);
    assert!(child_finished(0));
    assert!(child_finished(0));
}
