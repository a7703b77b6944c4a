use toy_debugger::process::{
    check_exec_path, stop_report, teardown_step, teardown_steps, Pid, Process, ProcessError,
    ProcessState, StopReason, TeardownStep, WaitOutcome,
};
use toy_debugger::text::decimal_text;

fn exited(code: i32) -> StopReason {
    StopReason { reason: ProcessState::Exited, exit_status: Some(code), signal: None }
}

fn signal_reason(reason: ProcessState, name: &str) -> StopReason {
    StopReason { reason, exit_status: None, signal: Some(name.to_string()) }
}

#[test]
fn attach_zero_pid_is_invalid() {
    let r = Process::attach(Pid::from(0));
    assert!(matches!(r, Err(ProcessError::InvalidPid)));
}

#[test]
fn attach_negative_pid_is_left_to_the_os() {
    let r = Process::attach(Pid::from(-1));
    assert!(matches!(r, Err(ProcessError::Attach)));
}

#[test]
fn attach_to_missing_process_fails() {
    // Above the kernel's largest process identifier: no such process exists.
    let r = Process::attach(Pid::from(i32::MAX));
    assert!(matches!(r, Err(ProcessError::Attach)));
}

#[test]
fn launch_zero_pid_is_invalid() {
    let r = Process::launch(Pid::from(0));
    assert!(matches!(r, Err(ProcessError::InvalidPid)));
}

#[test]
fn launch_of_a_process_that_is_not_a_child_fails_to_wait() {
    let r = Process::launch(Pid::from(i32::MAX));
    assert!(matches!(r, Err(ProcessError::Wait)));
}

#[test]
fn pid_round_trip_and_text() {
    let pid = Pid::from(4242);
    assert_eq!(pid.as_raw(), 4242);
    assert_eq!(pid.to_text(), "4242");
    assert_eq!(Pid::from(-7).to_text(), "-7");
}

#[test]
fn decimal_text_values() {
    assert_eq!(decimal_text(0), "0");
    assert_eq!(decimal_text(9), "9");
    assert_eq!(decimal_text(10), "10");
    assert_eq!(decimal_text(1234567), "1234567");
    assert_eq!(decimal_text(-45), "-45");
    assert_eq!(decimal_text(i32::MAX), "2147483647");
    assert_eq!(decimal_text(i32::MIN), "-2147483648");
}

#[test]
fn decode_exit() {
    let r = StopReason::from_outcome(WaitOutcome::Exited(3)).unwrap();
    assert_eq!(r.reason, ProcessState::Exited);
    assert_eq!(r.exit_status, Some(3));
    assert_eq!(r.signal, None);
}

#[test]
fn decode_fatal_signal() {
    let r = StopReason::from_outcome(WaitOutcome::Signaled("SIGKILL".to_string())).unwrap();
    assert_eq!(r.reason, ProcessState::Terminated);
    assert_eq!(r.exit_status, None);
    assert_eq!(r.signal, Some("SIGKILL".to_string()));
}

#[test]
fn decode_stop() {
    let r = StopReason::from_outcome(WaitOutcome::Stopped("SIGTRAP".to_string())).unwrap();
    assert_eq!(r.reason, ProcessState::Stopped);
    assert_eq!(r.exit_status, None);
    assert_eq!(r.signal, Some("SIGTRAP".to_string()));
}

#[test]
fn decode_other_is_none() {
    assert!(StopReason::from_outcome(WaitOutcome::Other).is_none());
}

#[test]
fn describe_each_state() {
    assert_eq!(exited(0).describe(), "exited with status: 0");
    assert_eq!(exited(-1).describe(), "exited with status: -1");
    assert_eq!(
        signal_reason(ProcessState::Terminated, "SIGSEGV").describe(),
        "terminated with signal: SIGSEGV"
    );
    assert_eq!(
        signal_reason(ProcessState::Stopped, "SIGTRAP").describe(),
        "stopped with signal: SIGTRAP"
    );
    let running = StopReason { reason: ProcessState::Running, exit_status: None, signal: None };
    assert_eq!(running.describe(), "");
}

#[test]
fn report_of_exit_with_code_zero() {
    let line = stop_report(Pid::from(1234), &exited(0));
    assert_eq!(line, Some("Process 1234 exited with status: 0".to_string()));
}

#[test]
fn report_of_signals() {
    let line = stop_report(Pid::from(77), &signal_reason(ProcessState::Terminated, "SIGKILL"));
    assert_eq!(line, Some("Process 77 terminated with signal: SIGKILL".to_string()));
    let line = stop_report(Pid::from(77), &signal_reason(ProcessState::Stopped, "SIGSTOP"));
    assert_eq!(line, Some("Process 77 stopped with signal: SIGSTOP".to_string()));
}

#[test]
fn report_of_running_is_suppressed() {
    let running = StopReason { reason: ProcessState::Running, exit_status: None, signal: None };
    assert_eq!(stop_report(Pid::from(77), &running), None);
}

#[test]
fn exec_path_checks() {
    assert_eq!(check_exec_path(b"/bin/true"), Ok(()));
    assert_eq!(check_exec_path(b""), Ok(()));
    assert_eq!(check_exec_path(b"/bin/\0true"), Err(ProcessError::InvalidPath));
}

#[test]
fn error_messages() {
    assert_eq!(ProcessError::InvalidPid.message(), "Can't attach to process with invalid PID");
    assert_eq!(ProcessError::Resume.message(), "Failed to resume inferior process");
    assert_eq!(ProcessError::Wait.message(), "Failed waiting for signal on inferior process");
}

#[test]
fn wait_failure_and_unknown_shape() {
    assert!(matches!(StopReason::from_wait(None), Err(ProcessError::Wait)));
    assert!(matches!(
        StopReason::from_wait(Some(WaitOutcome::Other)),
        Err(ProcessError::UnexpectedWaitStatus)
    ));
    let r = StopReason::from_wait(Some(WaitOutcome::Exited(0))).unwrap();
    assert_eq!(r.reason, ProcessState::Exited);
    assert_eq!(r.exit_status, Some(0));
}

#[test]
fn teardown_of_running_launched_process() {
    assert_eq!(
        teardown_steps(Pid::from(100), true, ProcessState::Running),
        vec![
            TeardownStep::StopAndWait,
            TeardownStep::Detach,
            TeardownStep::Continue,
            TeardownStep::KillAndWait
        ]
    );
}

#[test]
fn teardown_of_stopped_launched_process() {
    assert_eq!(
        teardown_steps(Pid::from(100), true, ProcessState::Stopped),
        vec![TeardownStep::Detach, TeardownStep::Continue, TeardownStep::KillAndWait]
    );
}

#[test]
fn teardown_of_exited_process_sends_no_kill() {
    assert_eq!(
        teardown_steps(Pid::from(100), true, ProcessState::Exited),
        vec![TeardownStep::Detach, TeardownStep::Continue]
    );
    assert_eq!(
        teardown_steps(Pid::from(100), true, ProcessState::Terminated),
        vec![TeardownStep::Detach, TeardownStep::Continue]
    );
}

#[test]
fn teardown_of_attached_process_never_kills() {
    assert_eq!(
        teardown_steps(Pid::from(100), false, ProcessState::Stopped),
        vec![TeardownStep::Detach, TeardownStep::Continue]
    );
    assert_eq!(
        teardown_steps(Pid::from(100), false, ProcessState::Running),
        vec![TeardownStep::StopAndWait, TeardownStep::Detach, TeardownStep::Continue]
    );
}

#[test]
fn teardown_of_sentinel_does_nothing() {
    assert!(teardown_steps(Pid::from(0), true, ProcessState::Running).is_empty());
    assert_eq!(teardown_step(Pid::from(0), true, ProcessState::Running, 0), None);
}

#[test]
fn teardown_step_by_position() {
    assert_eq!(
        teardown_step(Pid::from(5), false, ProcessState::Running, 0),
        Some(TeardownStep::StopAndWait)
    );
    assert_eq!(
        teardown_step(Pid::from(5), false, ProcessState::Running, 2),
        Some(TeardownStep::Continue)
    );
    assert_eq!(teardown_step(Pid::from(5), false, ProcessState::Running, 3), None);
    assert_eq!(teardown_step(Pid::from(5), true, ProcessState::Stopped, 7), None);
}
