//! Abstraction over a UNIX pipe's two descriptors and the end-marker
//! that says which end this address space owns.
//!
//! The descriptors themselves are allocated, closed and read by the
//! caller through raw syscalls; this module holds the verified state:
//! which end the pipe has been assigned to, and the rule that a line
//! read is only valid on the read end.

use vstd::prelude::*;

use crate::error::UECOError;
use crate::OCatchStrategy;

verus! {

/// The end of a pipe that one address space owns after the process
/// has been duplicated.
#[derive(Debug, PartialEq, Eq, Structural, Copy, Clone)]
pub enum PipeEnd {
    Read,
    Write,
}

/// Abstraction over one kernel pipe: its two descriptors and the
/// end-marker. The marker is filled lazily: the pipe must be created,
/// the process must be forked, and only after that, in each address
/// space, is the pipe marked as the right end.
#[derive(Debug)]
pub struct Pipe {
    /// Which end this address space owns; `None` until assigned.
    pub end: Option<PipeEnd>,
    /// The descriptor of the read end.
    pub read_fd: i32,
    /// The descriptor of the write end.
    pub write_fd: i32,
}

impl Pipe {
    /// Constructor, from the two descriptors that the `pipe()` call
    /// filled in. Both ends are still open in this address space, so
    /// no end-marker is assigned yet.
    pub fn new(read_fd: i32, write_fd: i32) -> (r: Self)
        ensures
            r.end is None,
            r.read_fd == read_fd,
            r.write_fd == write_fd,
    {
        Pipe { end: None, read_fd, write_fd }
    }

    /// Marks the pipe as the read end, the one the parent process owns.
    /// Returns the descriptor of the now-unused write end, which the
    /// caller must close.
    pub fn mark_as_parent_process(&mut self) -> (fd_to_close: i32)
        requires
            old(self).end is None,
        ensures
            final(self).end == Some(PipeEnd::Read),
            final(self).read_fd == old(self).read_fd,
            final(self).write_fd == old(self).write_fd,
            fd_to_close == old(self).write_fd,
    {
        self.end = Some(PipeEnd::Read);
        self.write_fd
    }

    /// Marks the pipe as the write end, the one the child process owns.
    /// Returns the descriptor of the now-unused read end, which the
    /// caller must close.
    pub fn mark_as_child_process(&mut self) -> (fd_to_close: i32)
        requires
            old(self).end is None,
        ensures
            final(self).end == Some(PipeEnd::Write),
            final(self).read_fd == old(self).read_fd,
            final(self).write_fd == old(self).write_fd,
            fd_to_close == old(self).read_fd,
    {
        self.end = Some(PipeEnd::Write);
        self.read_fd
    }

    /// Hands out the descriptor a line read goes to -- but only when
    /// the pipe has been assigned as the read end. Anything else is a
    /// programming-contract violation, reported as
    /// `PipeNotMarkedAsReadEnd` before any byte is read.
    pub fn consumer_fd(&self) -> (r: Result<i32, UECOError>)
        ensures
            r is Ok <==> self.end == Some(PipeEnd::Read),
            r matches Ok(fd) ==> fd == self.read_fd,
            r matches Err(e) ==> e == UECOError::PipeNotMarkedAsReadEnd,
    {
        match self.end {
            Some(PipeEnd::Read) => Ok(self.read_fd),
            _ => Err(UECOError::PipeNotMarkedAsReadEnd),
        }
    }
}

/// Convenient wrapper around the pipes that the desired output catch
/// strategy needs: one shared pipe for the combined strategy, two
/// independent pipes for the separate one.
#[derive(Debug)]
pub enum CatchPipes {
    Combined(Pipe),
    Separately { stdout: Pipe, stderr: Pipe },
}

impl CatchPipes {
    /// True when the allocated pipes are the ones `strategy` asks for.
    pub open spec fn matches_strategy(&self, strategy: OCatchStrategy) -> bool {
        match strategy {
            OCatchStrategy::StdCombined => self is Combined,
            OCatchStrategy::StdSeparately => self is Separately,
        }
    }

    /// The strategy these pipes were allocated for.
    pub fn strategy(&self) -> (r: OCatchStrategy)
        ensures
            self.matches_strategy(r),
    {
        match self {
            CatchPipes::Combined(_) => OCatchStrategy::StdCombined,
            CatchPipes::Separately { .. } => OCatchStrategy::StdSeparately,
        }
    }
}

} // verus!
