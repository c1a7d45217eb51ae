//! Executes a child process and captures everything it writes to its two
//! standard output streams, delivering the captured text as line sequences.
//!
//! Beyond what a plain "run a subprocess" facility gives, the library also
//! reconstructs the chronological interleaving of the two streams: a single
//! ordered sequence mixing both channels as they appeared. Two strategies
//! compete:
//!
//! * [`OCatchStrategy::StdCombined`] redirects both streams onto one shared
//!   channel. The combined sequence is exact, but the per-stream sequences
//!   are unrecoverable.
//! * [`OCatchStrategy::StdSeparately`] uses two independent channels. Each
//!   stream's own sequence is exact; the combined sequence is merged by
//!   capture timestamp and is only best-effort.
//!
//! This crate holds the verified capture engine: the channel state tracking,
//! the byte-to-line assembly, the child lifecycle state machine, the wait
//! status decoding, the error mapping, and the timestamp merge. The raw
//! process and descriptor syscalls live with the caller, which feeds their
//! results into the engine.

use vstd::prelude::*;

pub mod child;
pub mod error;
pub mod libc_util;
pub mod lines;
pub mod merge;
pub mod pipe;
pub mod reader;

verus! {

/// Determines the strategy that is used to get STDOUT, STDERR, and
/// "STDCOMBINED". Both have advantages and disadvantages.
#[derive(Debug, Copy, Clone, PartialEq, Eq, Structural)]
pub enum OCatchStrategy {
    /// Catches all output lines of STDOUT and STDERR in correct order on a
    /// line by line base. There is no way to find out STDOUT-only or
    /// STDERR-only lines.
    StdCombined,
    /// Catches all output lines from STDOUT and STDERR separately. There is
    /// also a "STDCOMBINED" sequence, but its order is only approximately
    /// correct, on a best effort base: scheduling and timestamp granularity
    /// decide how faithful the merge of the two separate streams is.
    StdSeparately,
}

/// Holds the information from the executed process. It depends on the
/// strategy how the output is structured:
///
/// * `stdout_lines` and `stderr_lines` are exact but `stdcombined_lines`
///   is only maybe in correct order; or
/// * `stdout_lines` and `stderr_lines` are `None`, but `stdcombined_lines`
///   is in correct order.
#[derive(Debug)]
pub struct ProcessOutput {
    /// Exit code of the process. 0 is success, anything else is error.
    exit_code: i32,
    /// `None` for [`OCatchStrategy::StdCombined`],
    /// `Some` for [`OCatchStrategy::StdSeparately`].
    stdout_lines: Option<Vec<String>>,
    /// `None` for [`OCatchStrategy::StdCombined`],
    /// `Some` for [`OCatchStrategy::StdSeparately`].
    stderr_lines: Option<Vec<String>>,
    /// All output lines in correct order for
    /// [`OCatchStrategy::StdCombined`], in not guaranteed correct order
    /// for [`OCatchStrategy::StdSeparately`].
    stdcombined_lines: Vec<String>,
    /// The strategy that was used to catch the output.
    strategy: OCatchStrategy,
}

impl ProcessOutput {
    /// The per-stream standard-output lines this output carries.
    pub closed spec fn spec_stdout_lines(&self) -> Option<Vec<String>> {
        self.stdout_lines
    }

    /// The per-stream standard-error lines this output carries.
    pub closed spec fn spec_stderr_lines(&self) -> Option<Vec<String>> {
        self.stderr_lines
    }

    /// The combined lines this output carries.
    pub closed spec fn spec_stdcombined_lines(&self) -> Vec<String> {
        self.stdcombined_lines
    }

    /// The exit code this output carries.
    pub closed spec fn spec_exit_code(&self) -> i32 {
        self.exit_code
    }

    /// The strategy this output was captured with.
    pub closed spec fn spec_strategy(&self) -> OCatchStrategy {
        self.strategy
    }

    /// The per-stream sequences exist exactly under the separate
    /// strategy: one shared channel cannot tell the streams apart, two
    /// independent channels always can.
    pub open spec fn wf(&self) -> bool {
        match self.spec_strategy() {
            OCatchStrategy::StdCombined => self.spec_stdout_lines() is None
                && self.spec_stderr_lines() is None,
            OCatchStrategy::StdSeparately => self.spec_stdout_lines() is Some
                && self.spec_stderr_lines() is Some,
        }
    }

    /// Constructor. The per-stream sequences must match the strategy,
    /// as [`ProcessOutput::wf`] demands.
    pub fn new(
        stdout_lines: Option<Vec<String>>,
        stderr_lines: Option<Vec<String>>,
        stdcombined_lines: Vec<String>,
        exit_code: i32,
        strategy: OCatchStrategy,
    ) -> (r: Self)
        requires
            strategy is StdCombined ==> stdout_lines is None && stderr_lines is None,
            strategy is StdSeparately ==> stdout_lines is Some && stderr_lines is Some,
        ensures
            r.spec_stdout_lines() == stdout_lines,
            r.spec_stderr_lines() == stderr_lines,
            r.spec_stdcombined_lines() == stdcombined_lines,
            r.spec_exit_code() == exit_code,
            r.spec_strategy() == strategy,
            r.wf(),
    {
        Self { stdout_lines, stderr_lines, stdcombined_lines, exit_code, strategy }
    }

    /// Getter for `stdout_lines`. This is only available if
    /// [`OCatchStrategy::StdSeparately`] was used.
    pub fn stdout_lines(&self) -> (r: Option<&Vec<String>>)
        ensures
            r is Some <==> self.spec_stdout_lines() is Some,
            r matches Some(v) ==> self.spec_stdout_lines() == Some(*v),
    {
        self.stdout_lines.as_ref()
    }

    /// Getter for `stderr_lines`. This is only available if
    /// [`OCatchStrategy::StdSeparately`] was used.
    pub fn stderr_lines(&self) -> (r: Option<&Vec<String>>)
        ensures
            r is Some <==> self.spec_stderr_lines() is Some,
            r matches Some(v) ==> self.spec_stderr_lines() == Some(*v),
    {
        self.stderr_lines.as_ref()
    }

    /// Getter for `stdcombined_lines`. The correctness of the ordering
    /// depends on the used [`OCatchStrategy`].
    pub fn stdcombined_lines(&self) -> (r: &Vec<String>)
        ensures
            *r == self.spec_stdcombined_lines(),
    {
        &self.stdcombined_lines
    }

    /// Getter for `exit_code` of the executed child process.
    pub fn exit_code(&self) -> (r: i32)
        ensures
            r == self.spec_exit_code(),
    {
        self.exit_code
    }

    /// Getter for the used [`OCatchStrategy`].
    pub fn strategy(&self) -> (r: OCatchStrategy)
        ensures
            r == self.spec_strategy(),
    {
        self.strategy
    }
}

/// True when every non-overlapping window of ten consecutive values is
/// internally sorted: neighbours are compared only inside a window.
pub open spec fn ten_chunks_sorted(data: Seq<u64>) -> bool {
    forall|k: int|
        0 <= k && k + 1 < data.len() && k % 10 != 9 ==> (#[trigger] data[k]) <= data[k + 1]
}

/// Checks that each non-overlapping window of ten consecutive values is
/// sorted. This is how an output check reads a capture of a child that
/// writes its lines in numbered groups of ten: inside a group the order
/// must hold, between groups the numbering starts over.
pub fn is_sorted(data: &Vec<u64>) -> (r: bool)
    requires
        data.len() % 10 == 0,
    ensures
        r == ten_chunks_sorted(data@),
{
    if data.len() == 0 {
        return true;
    }
    let mut k: usize = 0;
    while k + 1 < data.len()
        invariant
            k < data.len(),
            forall|i: int|
                0 <= i && i + 1 < data@.len() && i < k && i % 10 != 9 ==> (#[trigger] data@[i])
                    <= data@[i + 1],
        decreases data.len() - k,
    {
        if k % 10 != 9 && data[k] > data[k + 1] {
            return false;
        }
        k = k + 1;
    }
    true
}

} // verus!
