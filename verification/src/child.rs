//! Child process lifecycle tracking.
//!
//! The child itself is spawned and polled by the caller through raw
//! syscalls; this module holds the verified state machine that those
//! results are fed into: `Ready -> Running -> FinishedSuccess |
//! FinishedError(code)`, with no transition ever re-entered or reversed.

use vstd::prelude::*;

use crate::error::UECOError;
use crate::libc_util::{libc_ret_to_result, LibcSyscall};

verus! {

/// The state in that a child process can be.
#[derive(Debug, PartialEq, Eq, Structural, Copy, Clone)]
pub enum ProcessState {
    /// Waiting for dispatch.
    Ready,
    /// Dispatched.
    Running,
    /// Finished with error code 0.
    FinishedSuccess,
    /// Finished with error code != 0.
    FinishedError(i32),
}

/// True when a `waitpid` status word reports a normal exit:
/// its low seven bits are zero.
pub open spec fn wif_exited(status: u32) -> bool {
    status % 128 == 0
}

/// The exit code inside a status word that reports a normal exit:
/// its second byte.
pub open spec fn wexitstatus(status: u32) -> u32 {
    (status / 256) % 256
}

/// True when a `waitpid` status word reports termination by a signal:
/// its low seven bits are neither zero (normal exit) nor all ones
/// (a stopped child).
pub open spec fn wif_signaled(status: u32) -> bool {
    status % 128 != 0 && status % 128 != 127
}

/// The number of the terminating signal inside a status word:
/// its low seven bits.
pub open spec fn wtermsig(status: u32) -> u32 {
    status % 128
}

/// The numeric code this library records for a terminal status word:
/// the exit code itself for a normal exit, and `128 + signal` -- which
/// is never zero -- for a child terminated by a signal.
pub open spec fn terminal_exit_code(status: u32) -> int {
    if wif_exited(status) {
        wexitstatus(status) as int
    } else {
        128 + wtermsig(status) as int
    }
}

/// Abstraction over a child process: its executable, its argument list,
/// and its lifecycle state, fed by the caller's non-blocking polls.
pub struct ChildProcess {
    /// String of the executable. Can also be a name that will be looked
    /// up inside $PATH during execution.
    pub executable: String,
    /// All args of the program including args[0] that refers to the
    /// name of the binary.
    pub args: Vec<String>,
    /// Once the process has been dispatched/forked, the pid of the
    /// child is set here.
    pub pid: Option<i32>,
    /// Once the process exited, the recorded exit code stands here.
    pub exit_status: Option<i32>,
    /// The current process state.
    pub state: ProcessState,
}

impl ChildProcess {
    /// Constructor. The process starts in `Ready`, with no pid and no
    /// exit code: nothing has been observed of it yet.
    pub fn new(executable: String, args: Vec<String>) -> (r: Self)
        ensures
            r.executable == executable,
            r.args == args,
            r.pid is None,
            r.exit_status is None,
            r.state is Ready,
    {
        ChildProcess {
            executable,
            args,
            pid: None,
            exit_status: None,
            state: ProcessState::Ready,
        }
    }

    /// Records a successful dispatch: the duplication call returned
    /// `pid` in the parent, so the child is now running.
    pub fn mark_running(&mut self, pid: i32)
        requires
            old(self).state is Ready,
        ensures
            final(self).state is Running,
            final(self).pid == Some(pid),
            final(self).executable == old(self).executable,
            final(self).args == old(self).args,
            final(self).exit_status == old(self).exit_status,
    {
        self.state = ProcessState::Running;
        self.pid = Some(pid);
    }

    /// Applies the result of one non-blocking `waitpid` poll.
    ///
    /// `wait_ret` is the call's return value, `wait_status` its status
    /// word. A state other than `Running` is cached and returned without
    /// consulting the arguments: the OS state of an already-reaped child
    /// is invalid, so a terminal state is permanent. While the child is
    /// running, a poll that reports nothing leaves the state unchanged;
    /// a terminal report records the exit code -- the child's own code
    /// for a normal exit, a non-zero `128 + signal` for a killed child
    /// -- and moves to the matching finished state, permanently.
    pub fn check_state_nbl(&mut self, wait_ret: i32, wait_status: u32) -> (r: Result<
        ProcessState,
        UECOError,
    >)
        ensures
            !(old(self).state is Running) ==> *final(self) == *old(self) && r == Ok::<
                ProcessState,
                UECOError,
            >(old(self).state),
            old(self).state is Running && wait_ret == -1 ==> *final(self) == *old(self) && (
            r matches Err(e) && e is WaitpidFailed),
            old(self).state is Running && wait_ret != -1 ==> r == Ok::<ProcessState, UECOError>(
                final(self).state,
            ),
            old(self).state is Running && wait_ret == 0 ==> *final(self) == *old(self),
            old(self).state is Running && wait_ret != -1 && wait_ret != 0 && !wif_exited(
                wait_status,
            ) && !wif_signaled(wait_status) ==> *final(self) == *old(self),
            old(self).state is Running && wait_ret != -1 && wait_ret != 0 && (wif_exited(
                wait_status,
            ) || wif_signaled(wait_status)) ==> {
                let code = terminal_exit_code(wait_status);
                &&& final(self).exit_status == Some(code as i32)
                &&& final(self).state == (if code == 0 {
                    ProcessState::FinishedSuccess
                } else {
                    ProcessState::FinishedError(code as i32)
                })
                &&& wif_signaled(wait_status) ==> code != 0
            },
            final(self).executable == old(self).executable,
            final(self).args == old(self).args,
            final(self).pid == old(self).pid,
    {
        if self.state != ProcessState::Running {
            return Ok(self.state);
        }
        match libc_ret_to_result(wait_ret, LibcSyscall::Waitpid) {
            Err(e) => {
                return Err(e);
            },
            Ok(()) => {},
        }
        if wait_ret == 0 {
            // the child has not reported a terminal status yet
            return Ok(self.state);
        }
        let low: u32 = wait_status % 128;
        if low == 0 {
            // exited normally: the exit code is in the second byte
            let code: i32 = ((wait_status / 256) % 256) as i32;
            self.exit_status = Some(code);
            if code == 0 {
                self.state = ProcessState::FinishedSuccess;
            } else {
                self.state = ProcessState::FinishedError(code);
            }
            Ok(self.state)
        } else if low != 127 {
            // terminated by a signal: record a distinguishable non-zero code
            let code: i32 = (128 + low) as i32;
            self.exit_status = Some(code);
            self.state = ProcessState::FinishedError(code);
            Ok(self.state)
        } else {
            // a stopped child is not a terminal state
            Ok(self.state)
        }
    }

    /// Getter for the recorded exit code. It is `None` until a poll has
    /// observed a terminal state.
    pub fn exit_code(&self) -> (r: Option<i32>)
        ensures
            r == self.exit_status,
    {
        self.exit_status
    }
}

} // verus!

