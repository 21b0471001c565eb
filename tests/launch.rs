use duallutils::error::{DuError, OsFailure};
use duallutils::launch::{
    capture_output, exit_status, launch_code, launch_failure, open_code, parse_env, plan_launch,
    split_env_entry, waited_exit,
};

#[test]
fn env_entries_split_at_first_equals() {
    assert_eq!(split_env_entry("A=B=C"), Some(("A".to_string(), "B=C".to_string())));
    assert_eq!(split_env_entry("=x"), Some((String::new(), "x".to_string())));
    assert_eq!(split_env_entry("KEY="), Some(("KEY".to_string(), String::new())));
    assert_eq!(split_env_entry("NOEQUALS"), None);
}

#[test]
fn malformed_env_entries_skipped() {
    let entries = vec!["A=1".to_string(), "junk".to_string(), "B=2".to_string()];
    assert_eq!(
        parse_env(&entries),
        vec![("A".to_string(), "1".to_string()), ("B".to_string(), "2".to_string())]
    );
}

#[test]
fn launch_plan_reads_request() {
    let args = vec![b"My test".to_vec()];
    let envs = vec![b"LANG=C".to_vec(), b"broken".to_vec()];
    let plan = plan_launch(Some(b"echo"), Some(b"/tmp"), Some(&args), Some(&envs)).unwrap();
    assert_eq!(plan.program, "echo");
    assert_eq!(plan.workdir, Some("/tmp".to_string()));
    assert_eq!(plan.args, vec!["My test".to_string()]);
    assert_eq!(plan.envs, vec![("LANG".to_string(), "C".to_string())]);
}

#[test]
fn launch_plan_without_optional_parts() {
    let plan = plan_launch(Some(b"echo"), None, None, None).unwrap();
    assert_eq!(plan.workdir, None);
    assert!(plan.args.is_empty());
    assert!(plan.envs.is_empty());
}

#[test]
fn launch_plan_rejects_null_and_malformed() {
    assert_eq!(plan_launch(None, None, None, None).err(), Some(DuError::InvalidArgument));
    let bad = vec![vec![0xffu8]];
    assert_eq!(
        plan_launch(Some(b"echo"), None, Some(&bad), None).err(),
        Some(DuError::InvalidArgument)
    );
    assert_eq!(
        plan_launch(Some(b"echo"), Some(b"\xff"), None, None).err(),
        Some(DuError::InvalidArgument)
    );
}

#[test]
fn spawn_sentinels() {
    assert_eq!(launch_code(plan_launch(None, None, None, None).map(|_| ())), -1);
    let plan = plan_launch(Some(b"blah blah"), None, None, None).unwrap();
    assert_eq!(plan.program, "blah blah");
    assert_eq!(launch_code(Err(launch_failure(OsFailure::NotFound))), -2);
    let plan = plan_launch(Some(b"echo"), None, None, None).unwrap();
    assert_eq!(plan.program, "echo");
    assert_eq!(exit_status(Some(0)), Ok(0));
    assert_eq!(launch_code(exit_status(Some(0)).map(|_| ())), 0);
}

#[test]
fn execute_sentinels() {
    assert_eq!(launch_code(plan_launch(None, None, None, None).map(|_| ())), -1);
    assert_eq!(launch_code(Err(launch_failure(OsFailure::NotFound))), -2);
    let args = vec![b"My test".to_vec()];
    let plan = plan_launch(Some(b"echo"), None, Some(&args), None).unwrap();
    assert_eq!(plan.args, vec!["My test".to_string()]);
    let captured = capture_output(b"My test\n", b"", Some(0)).unwrap();
    assert_eq!(captured.exit_code, 0);
    assert_eq!(captured.stdout.trim(), "My test");
}

#[test]
fn captured_echo_output() {
    let captured = capture_output(b"hello\n", b"", Some(0)).unwrap();
    assert_eq!(captured.exit_code, 0);
    assert_eq!(captured.stdout.trim_end(), "hello");
    assert_eq!(captured.stderr, "");
}

#[test]
fn captured_output_that_is_not_text() {
    assert_eq!(capture_output(b"\xff", b"", Some(0)).err(), Some(DuError::Unknown));
    assert_eq!(capture_output(b"a\0b", b"", Some(0)).err(), Some(DuError::Unknown));
    assert_eq!(capture_output(b"ok", b"", None).err(), Some(DuError::Unknown));
}

#[test]
fn launch_failures_classified() {
    assert_eq!(launch_failure(OsFailure::NotFound), DuError::NotFound);
    assert_eq!(launch_failure(OsFailure::PermissionDenied), DuError::Unknown);
    assert_eq!(launch_failure(OsFailure::Other), DuError::Unknown);
    assert_eq!(launch_code(Ok(())), 0);
    assert_eq!(launch_code(Err(DuError::Unknown)), -3);
    assert_eq!(exit_status(None), Err(DuError::Unknown));
    assert_eq!(exit_status(Some(3)), Ok(3));
}

#[test]
fn open_sentinels() {
    assert_eq!(open_code(Ok(())), 0);
    assert_eq!(open_code(Err(DuError::InvalidArgument)), -1);
    assert_eq!(open_code(Err(DuError::Unknown)), -2);
}

#[test]
fn waited_exit_outcomes() {
    assert_eq!(waited_exit(Ok(Some(0))), Ok(0));
    assert_eq!(waited_exit(Ok(Some(42))), Ok(42));
    assert_eq!(waited_exit(Ok(None)), Err(DuError::Unknown));
    assert_eq!(waited_exit(Err(OsFailure::Other)), Err(DuError::Unknown));
}
