use unix_exec_output_catcher::child::{ChildProcess, ProcessState};
use unix_exec_output_catcher::error::UECOError;
use unix_exec_output_catcher::is_sorted;
use unix_exec_output_catcher::libc_util::{libc_ret_to_result, syscall_to_uecoerror, LibcSyscall};
use unix_exec_output_catcher::OCatchStrategy;
use unix_exec_output_catcher::ProcessOutput;

fn running_child(pid: i32) -> ChildProcess {
    let mut child = ChildProcess::new("prog".to_string(), vec!["prog".to_string()]);
    child.mark_running(pid);
    child
}

#[test]
fn new_child_is_ready() {
    let child = ChildProcess::new("ls".to_string(), vec!["ls".to_string(), "-la".to_string()]);
    assert!(matches!(child.state, ProcessState::Ready));
    assert!(child.pid.is_none());
    assert!(child.exit_code().is_none());
    assert_eq!(child.executable, "ls");
    assert_eq!(child.args.len(), 2);
}

#[test]
fn dispatch_marks_running() {
    let child = running_child(4711);
    assert!(matches!(child.state, ProcessState::Running));
    assert_eq!(child.pid, Some(4711));
    assert!(child.exit_code().is_none());
}

#[test]
fn exit_code_zero_finishes_successfully() {
    let mut child = running_child(100);
    let state = child.check_state_nbl(100, 0).unwrap();
    assert!(matches!(state, ProcessState::FinishedSuccess));
    assert_eq!(child.exit_code(), Some(0));
}

#[test]
fn exit_code_is_propagated() {
    // a child exiting with code 7: the status word carries it in its
    // second byte
    let mut child = running_child(100);
    let state = child.check_state_nbl(100, 7 << 8).unwrap();
    assert!(matches!(state, ProcessState::FinishedError(7)));
    assert_eq!(child.exit_code(), Some(7));
}

#[test]
fn exit_code_255_is_propagated() {
    let mut child = running_child(100);
    let state = child.check_state_nbl(100, 255 << 8).unwrap();
    assert!(matches!(state, ProcessState::FinishedError(255)));
    assert_eq!(child.exit_code(), Some(255));
}

#[test]
fn signal_termination_yields_nonzero_code() {
    // a child killed by signal 9: the recorded code is 128 + 9
    let mut child = running_child(100);
    let state = child.check_state_nbl(100, 9).unwrap();
    assert!(matches!(state, ProcessState::FinishedError(137)));
    assert_eq!(child.exit_code(), Some(137));
}

#[test]
fn no_report_keeps_running() {
    let mut child = running_child(100);
    let state = child.check_state_nbl(0, 0).unwrap();
    assert!(matches!(state, ProcessState::Running));
    assert!(child.exit_code().is_none());
}

#[test]
fn terminal_state_is_cached() {
    // once terminal, later polls return the cached state without
    // consulting their arguments
    let mut child = running_child(100);
    child.check_state_nbl(100, 7 << 8).unwrap();
    let state = child.check_state_nbl(100, 3 << 8).unwrap();
    assert!(matches!(state, ProcessState::FinishedError(7)));
    assert_eq!(child.exit_code(), Some(7));
}

#[test]
fn ready_child_reports_ready() {
    let mut child = ChildProcess::new("prog".to_string(), vec![]);
    let state = child.check_state_nbl(100, 0).unwrap();
    assert!(matches!(state, ProcessState::Ready));
}

#[test]
fn failed_status_query_is_an_error() {
    let mut child = running_child(100);
    let err = child.check_state_nbl(-1, 0).unwrap_err();
    assert!(matches!(err, UECOError::WaitpidFailed { .. }));
    // the failed query decided nothing: the child still counts as running
    assert!(matches!(child.state, ProcessState::Running));
}

#[test]
fn stopped_child_is_not_terminal() {
    // a status word whose low seven bits are all ones reports a stopped
    // child, not a finished one
    let mut child = running_child(100);
    let state = child.check_state_nbl(100, 0x137f).unwrap();
    assert!(matches!(state, ProcessState::Running));
    assert!(child.exit_code().is_none());
}

#[test]
fn libc_success_values_are_ok() {
    assert!(libc_ret_to_result(0, LibcSyscall::Pipe).is_ok());
    assert!(libc_ret_to_result(4711, LibcSyscall::Fork).is_ok());
}

#[test]
fn libc_failure_maps_to_matching_variant() {
    assert!(matches!(
        libc_ret_to_result(-1, LibcSyscall::Fork),
        Err(UECOError::ForkFailed { .. })
    ));
    assert!(matches!(
        libc_ret_to_result(-1, LibcSyscall::Pipe),
        Err(UECOError::PipeFailed { .. })
    ));
    assert!(matches!(
        libc_ret_to_result(-1, LibcSyscall::Dup2),
        Err(UECOError::Dup2Failed { .. })
    ));
    assert!(matches!(
        libc_ret_to_result(-1, LibcSyscall::Close),
        Err(UECOError::CloseFailed { .. })
    ));
    assert!(matches!(
        libc_ret_to_result(-1, LibcSyscall::Read),
        Err(UECOError::ReadFailed { .. })
    ));
    assert!(matches!(
        libc_ret_to_result(-1, LibcSyscall::Execvp),
        Err(UECOError::ExecvpFailed { .. })
    ));
    assert!(matches!(
        libc_ret_to_result(-1, LibcSyscall::Waitpid),
        Err(UECOError::WaitpidFailed { .. })
    ));
}

#[test]
fn syscall_error_carries_the_code() {
    assert_eq!(
        syscall_to_uecoerror(LibcSyscall::Pipe, 24),
        UECOError::PipeFailed { errno: 24 }
    );
    assert_eq!(
        syscall_to_uecoerror(LibcSyscall::Read, 5),
        UECOError::ReadFailed { errno: 5 }
    );
}

#[test]
fn output_getters_return_what_was_stored() {
    let out = ProcessOutput::new(
        Some(vec!["o".to_string()]),
        Some(vec!["e".to_string()]),
        vec!["o".to_string(), "e".to_string()],
        42,
        OCatchStrategy::StdSeparately,
    );
    assert_eq!(out.stdout_lines().unwrap(), &vec!["o".to_string()]);
    assert_eq!(out.stderr_lines().unwrap(), &vec!["e".to_string()]);
    assert_eq!(
        out.stdcombined_lines(),
        &vec!["o".to_string(), "e".to_string()]
    );
    assert_eq!(out.exit_code(), 42);
    assert!(matches!(out.strategy(), OCatchStrategy::StdSeparately));
}

#[test]
fn sorted_groups_of_ten_pass() {
    let mut data: Vec<u64> = Vec::new();
    for _ in 0..2 {
        for v in 1..=10u64 {
            data.push(v);
        }
    }
    // inside each group of ten the order holds; between groups the
    // numbering starts over, which is no violation
    assert!(is_sorted(&data));
}

#[test]
fn unsorted_group_fails() {
    let mut data: Vec<u64> = (1..=10u64).collect();
    data[3] = 99;
    assert!(!is_sorted(&data));
}
