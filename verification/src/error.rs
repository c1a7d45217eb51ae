//! The errors that can arise while spawning a child process and
//! capturing its output.

use vstd::prelude::*;

verus! {

/// Short for U(nix) E(xec) C(atch) O(utput)-Error.
/// Combines all errors that can happen inside this library.
///
/// Every failure aborts the whole capture operation; no partial output
/// is ever returned together with an error. The `errno` fields carry
/// the OS error code that the failing call reported.
#[derive(Debug, Copy, Clone, PartialEq, Eq, Structural)]
pub enum UECOError {
    /// `pipe()` failed: a channel could not be created.
    PipeFailed { errno: i32 },
    /// `dup2()` failed: a standard stream could not be redirected
    /// onto a channel.
    Dup2Failed { errno: i32 },
    /// `execvp()` failed: the child could not replace its program image.
    ExecvpFailed { errno: i32 },
    /// `waitpid()` failed: the non-blocking status query itself failed.
    WaitpidFailed { errno: i32 },
    /// `read()` failed for a reason other than end-of-stream.
    ReadFailed { errno: i32 },
    /// `fork()` failed: the process could not be duplicated.
    ForkFailed { errno: i32 },
    /// `close()` failed: an unused descriptor could not be closed.
    CloseFailed { errno: i32 },
    /// A read was attempted on a pipe that is not yet assigned as the
    /// read end: a programming-contract violation, not an I/O error.
    PipeNotMarkedAsReadEnd,
    /// The child was already dispatched/started.
    ChildAlreadyDispatched,
    /// For all other errors, notably a failed program-image replacement
    /// inside the child, which cannot cleanly unwind.
    Unknown,
}

} // verus!
