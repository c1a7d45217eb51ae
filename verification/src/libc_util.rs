//! Translation of raw syscall return values into this library's errors.

use vstd::prelude::*;

use crate::error::UECOError;

verus! {

/// The syscall that a raw return value came from. Decides which error
/// variant a failed call is reported as.
#[derive(Debug, Copy, Clone, PartialEq, Eq, Structural)]
pub enum LibcSyscall {
    Fork,
    Pipe,
    Dup2,
    Close,
    Read,
    Execvp,
    Waitpid,
}

/// The error that a failed call of `syscall` with error code `errno`
/// maps to.
pub open spec fn spec_syscall_error(syscall: LibcSyscall, errno: i32) -> UECOError {
    match syscall {
        LibcSyscall::Fork => UECOError::ForkFailed { errno },
        LibcSyscall::Pipe => UECOError::PipeFailed { errno },
        LibcSyscall::Dup2 => UECOError::Dup2Failed { errno },
        LibcSyscall::Close => UECOError::CloseFailed { errno },
        LibcSyscall::Read => UECOError::ReadFailed { errno },
        LibcSyscall::Execvp => UECOError::ExecvpFailed { errno },
        LibcSyscall::Waitpid => UECOError::WaitpidFailed { errno },
    }
}

/// True when `e` is the error variant that reports a failure of `syscall`,
/// whatever OS error code it carries.
pub open spec fn error_matches_syscall(syscall: LibcSyscall, e: UECOError) -> bool {
    match syscall {
        LibcSyscall::Fork => e is ForkFailed,
        LibcSyscall::Pipe => e is PipeFailed,
        LibcSyscall::Dup2 => e is Dup2Failed,
        LibcSyscall::Close => e is CloseFailed,
        LibcSyscall::Read => e is ReadFailed,
        LibcSyscall::Execvp => e is ExecvpFailed,
        LibcSyscall::Waitpid => e is WaitpidFailed,
    }
}

/// The OS error code of the calling thread at this moment.
///
/// Relies on `errno::errno`: it reads the thread-local `errno` variable
/// and hands its code out unchanged. The value depends on whichever call
/// failed last, so nothing can be promised about it.
#[verifier::external_body]
fn current_errno() -> i32 {
    errno::errno().0
}

/// Translates the libc syscall that failed, together with the reported
/// OS error code, to an error of this library.
pub fn syscall_to_uecoerror(syscall: LibcSyscall, errno: i32) -> (r: UECOError)
    ensures
        r == spec_syscall_error(syscall, errno),
{
    match syscall {
        LibcSyscall::Fork => UECOError::ForkFailed { errno },
        LibcSyscall::Pipe => UECOError::PipeFailed { errno },
        LibcSyscall::Dup2 => UECOError::Dup2Failed { errno },
        LibcSyscall::Close => UECOError::CloseFailed { errno },
        LibcSyscall::Read => UECOError::ReadFailed { errno },
        LibcSyscall::Execvp => UECOError::ExecvpFailed { errno },
        LibcSyscall::Waitpid => UECOError::WaitpidFailed { errno },
    }
}

/// Turns the return value of a libc function into a result.
///
/// `-1` is the universal failure indicator: the thread's current OS error
/// code is looked up and wrapped in the error variant that belongs to
/// `syscall`. Any other value counts as success; for example `fork()`
/// returns a pid, and every value `>= 0` is a valid one.
pub fn libc_ret_to_result(res: i32, syscall: LibcSyscall) -> (r: Result<(), UECOError>)
    ensures
        res != -1 <==> r is Ok,
        r matches Err(e) ==> error_matches_syscall(syscall, e),
{
    if res == -1 {
        let errno = current_errno();
        Err(syscall_to_uecoerror(syscall, errno))
    } else {
        Ok(())
    }
}

} // verus!
