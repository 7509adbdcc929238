use scarb_process::{
    exit_result, spawn_failure, stdio_plan, wait_failure, ExecError, ExecMode, ExitReport,
    StdioPlan, StdioSource,
};

#[test]
fn zero_exit_is_success() {
    assert!(exit_result(&ExitReport::Code(0)).is_ok());
}

#[test]
fn nonzero_exit_quotes_status() {
    match exit_result(&ExitReport::Code(3)) {
        Err(ExecError::NonZeroExit(m)) => {
            assert_eq!(m, "process did not exit successfully: exit status: 3");
            assert!(m.contains('3'));
        }
        other => panic!("unexpected {:?}", other),
    }
}

#[test]
fn large_and_negative_exit_codes() {
    let e = exit_result(&ExitReport::Code(1234567)).unwrap_err();
    assert_eq!(e.message(), "process did not exit successfully: exit status: 1234567");
    let e = exit_result(&ExitReport::Code(i32::MIN)).unwrap_err();
    assert_eq!(e.message(), "process did not exit successfully: exit status: -2147483648");
    let e = exit_result(&ExitReport::Code(-1)).unwrap_err();
    assert_eq!(e.message(), "process did not exit successfully: exit status: -1");
}

#[test]
fn signal_exit_is_failure() {
    let e = exit_result(&ExitReport::Other("signal: 9 (SIGKILL)".to_string())).unwrap_err();
    assert!(matches!(e, ExecError::NonZeroExit(_)));
    assert_eq!(e.message(), "process did not exit successfully: signal: 9 (SIGKILL)");
}

#[test]
fn spawn_failure_in_replace_mode_names_program() {
    let args = vec!["x".to_string()];
    let e = spawn_failure(ExecMode::Replace, "/no/such/prog", &args);
    assert!(matches!(e, ExecError::SpawnFailure(_)));
    assert_eq!(e.message(), "failed to spawn: /no/such/prog");
}

#[test]
fn spawn_failure_in_supervised_mode_names_command() {
    let args = vec!["a".to_string(), "b c".to_string()];
    let e = spawn_failure(ExecMode::Supervised, "/no/such/prog", &args);
    assert!(matches!(e, ExecError::SpawnFailure(_)));
    assert_eq!(e.message(), "could not execute process: /no/such/prog a b c");
    assert!(e.message().contains("/no/such/prog"));
}

#[test]
fn wait_failure_messages() {
    let args = vec!["1".to_string()];
    let e = wait_failure(ExecMode::Replace, "sleep", &args);
    assert!(matches!(e, ExecError::WaitFailure(_)));
    assert_eq!(e.message(), "failed to wait for process to finish: sleep");
    let e = wait_failure(ExecMode::Supervised, "sleep", &args);
    assert_eq!(e.message(), "could not wait for process termination: sleep 1");
}

#[test]
fn supervised_child_gets_closed_stdin_and_pipes() {
    assert_eq!(
        stdio_plan(ExecMode::Supervised),
        StdioPlan {
            stdin: StdioSource::Null,
            stdout: StdioSource::Piped,
            stderr: StdioSource::Piped,
        }
    );
}

#[test]
fn replaced_child_inherits_streams() {
    assert_eq!(
        stdio_plan(ExecMode::Replace),
        StdioPlan {
            stdin: StdioSource::Inherit,
            stdout: StdioSource::Inherit,
            stderr: StdioSource::Inherit,
        }
    );
}
