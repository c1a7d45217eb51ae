//! The drain engine that turns the bytes read from a channel into
//! completed, timestamped lines, and the assembly of the final output.
//!
//! The blocking reads themselves are the caller's: it reads the channel
//! byte by byte and feeds every byte, and finally the end-of-stream
//! observation, into a [`StreamDrain`]. The drain is verified to hold,
//! at every moment, exactly the completed lines of the stream consumed
//! so far -- so whatever the kernel delivered, the capture reports its
//! lines and nothing else.

use vstd::prelude::*;

use crate::child::ProcessState;
use crate::lines::{complete_lines, lemma_lines_round_trip, lemma_split_state_step, newline_free,
    join_lines, pending_fragment};
use crate::merge::{merge_tagged, merge_by_timestamp, TaggedLine, ts_sorted};
use crate::{OCatchStrategy, ProcessOutput};

verus! {

/// The lines of `s` without their capture timestamps.
pub open spec fn untag(s: Seq<TaggedLine>) -> Seq<String> {
    s.map_values(|l: TaggedLine| l.1)
}

/// Relies on `String::push`: it appends exactly the one given character
/// to the end of the string.
#[verifier::external_body]
fn string_push(s: &mut String, c: char)
    ensures
        final(s)@ == old(s)@.push(c),
{
    s.push(c);
}

/// Drains one channel: accumulates the bytes the caller reads into
/// completed lines, each timestamped at the moment its newline was
/// observed. The unterminated fragment that a closing stream may end
/// with is never delivered as a line.
pub struct StreamDrain {
    /// The completed lines, each tagged with its capture timestamp.
    pub lines: Vec<TaggedLine>,
    /// The pending fragment that no newline has completed yet.
    pub pending: String,
    /// The greatest capture timestamp recorded so far.
    pub last_ts: u64,
    /// The whole character stream consumed so far.
    pub consumed: Ghost<Seq<char>>,
}

impl StreamDrain {
    /// The drain tracks its stream exactly: its completed lines are the
    /// completed lines of the consumed stream, its pending buffer is the
    /// stream's unterminated tail, and its timestamps never decrease.
    pub open spec fn wf(&self) -> bool {
        &&& self.lines@.map_values(|l: TaggedLine| l.1@) == complete_lines(self.consumed@)
        &&& self.pending@ == pending_fragment(self.consumed@)
        &&& ts_sorted(self.lines@)
        &&& forall|i: int|
            0 <= i < self.lines@.len() ==> (#[trigger] self.lines@[i]).0 <= self.last_ts
    }

    /// A fresh drain: nothing consumed, nothing pending, no lines.
    pub fn new() -> (r: Self)
        ensures
            r.wf(),
            r.consumed@ == Seq::<char>::empty(),
            r.lines@ == Seq::<TaggedLine>::empty(),
            r.pending@ == Seq::<char>::empty(),
            r.last_ts == 0,
    {
        let r = StreamDrain {
            lines: Vec::new(),
            pending: String::new(),
            last_ts: 0u64,
            consumed: Ghost(Seq::empty()),
        };
        proof {
            assert(r.lines@.map_values(|l: TaggedLine| l.1@) =~= complete_lines(r.consumed@));
        }
        r
    }

    /// Consumes one byte read from the channel, observed at time `now`
    /// of a monotonic clock. A newline byte completes the pending
    /// fragment into a line, timestamped at this moment; any other byte
    /// extends the fragment. Returns whether a line was completed.
    pub fn push_byte(&mut self, b: u8, now: u64) -> (completed: bool)
        requires
            old(self).wf(),
        ensures
            final(self).wf(),
            final(self).consumed@ == old(self).consumed@.push(b as char),
            completed == (b as char == '\n'),
            !completed ==> final(self).lines@ == old(self).lines@ && final(self).last_ts
                == old(self).last_ts,
            completed ==> {
                let ts = if now < old(self).last_ts {
                    old(self).last_ts
                } else {
                    now
                };
                &&& final(self).lines@.len() == old(self).lines@.len() + 1
                &&& final(self).lines@.drop_last() == old(self).lines@
                &&& final(self).lines@.last().1@ == pending_fragment(old(self).consumed@)
                &&& final(self).lines@.last().0 == ts
                &&& final(self).last_ts == ts
            },
    {
        let c = b as char;
        proof {
            lemma_split_state_step(self.consumed@, c);
        }
        self.consumed = Ghost(self.consumed@.push(c));
        if c == '\n' {
            // the timestamp of the completed line; a monotonic clock
            // never runs backward, but the recorded tags must not either
            let ts = if now < self.last_ts {
                self.last_ts
            } else {
                now
            };
            self.last_ts = ts;
            let mut line = String::new();
            core::mem::swap(&mut line, &mut self.pending);
            let ghost old_lines = self.lines@;
            self.lines.push((ts, line));
            proof {
                assert(self.lines@.drop_last() =~= old_lines);
                assert(self.lines@.map_values(|l: TaggedLine| l.1@) =~= complete_lines(
                    self.consumed@,
                ));
                assert forall|i: int, j: int|
                    0 <= i <= j < self.lines@.len() implies (#[trigger] self.lines@[i]).0 <= (
                #[trigger] self.lines@[j]).0 by {
                    if j < self.lines@.len() - 1 {
                        assert(self.lines@[i] == old_lines[i]);
                        assert(self.lines@[j] == old_lines[j]);
                    } else if i < j {
                        assert(self.lines@[i] == old_lines[i]);
                    }
                }
            }
            true
        } else {
            string_push(&mut self.pending, c);
            false
        }
    }

    /// End of the drain: hands the completed lines out. Whatever
    /// fragment was still pending when the stream closed is dropped.
    pub fn into_lines(self) -> (r: Vec<TaggedLine>)
        ensures
            r == self.lines,
    {
        self.lines
    }
}

/// The two-signal termination rule of a drain loop: reading may stop
/// only when the most recent read observed end-of-stream *and* the
/// process handle reports a state other than `Running`. A terminal
/// process state alone does not imply the channel is empty --
/// kernel-buffered bytes outlive the process -- and end-of-stream alone
/// does not imply the process is done.
pub fn capture_complete(eof: bool, state: ProcessState) -> (r: bool)
    ensures
        r == (eof && state != ProcessState::Running),
{
    let process_is_running = state == ProcessState::Running;
    eof && !process_is_running
}

/// Drops the capture timestamps from a drained line sequence.
pub fn untag_lines(tagged: &Vec<TaggedLine>) -> (r: Vec<String>)
    ensures
        r@ == untag(tagged@),
{
    let mut r: Vec<String> = Vec::new();
    let mut i: usize = 0;
    while i < tagged.len()
        invariant
            i <= tagged.len(),
            r@ == untag(tagged@.take(i as int)),
        decreases tagged.len() - i,
    {
        let line = tagged[i].1.clone();
        r.push(line);
        proof {
            assert(tagged@.take(i + 1 as int).drop_last() =~= tagged@.take(i as int));
            assert(r@ =~= untag(tagged@.take(i + 1 as int)));
        }
        i = i + 1;
    }
    proof {
        assert(tagged@.take(tagged@.len() as int) =~= tagged@);
    }
    r
}

/// Builds the result of a combined-strategy capture: the lines that the
/// one shared channel delivered, in exactly the order the kernel
/// serialized them, with no per-stream sequences -- those are
/// unrecoverable from a shared channel.
pub fn assemble_combined_output(lines: Vec<TaggedLine>, exit_code: i32) -> (r: ProcessOutput)
    ensures
        r.spec_strategy() is StdCombined,
        r.spec_stdout_lines() is None,
        r.spec_stderr_lines() is None,
        r.spec_stdcombined_lines()@ == untag(lines@),
        r.spec_exit_code() == exit_code,
        r.wf(),
{
    let combined = untag_lines(&lines);
    ProcessOutput::new(None, None, combined, exit_code, OCatchStrategy::StdCombined)
}

/// Builds the result of a separate-strategy capture. Each stream's own
/// sequence is kept exactly as drained; the combined sequence is the
/// stable timestamp merge of the two, with the standard-output line
/// first on a tie -- best-effort chronological order, never data loss.
pub fn assemble_separate_output(
    stdout: Vec<TaggedLine>,
    stderr: Vec<TaggedLine>,
    exit_code: i32,
) -> (r: ProcessOutput)
    ensures
        r.spec_strategy() is StdSeparately,
        r.spec_stdout_lines() matches Some(v) && v@ == untag(stdout@),
        r.spec_stderr_lines() matches Some(v) && v@ == untag(stderr@),
        r.spec_stdcombined_lines()@ == untag(merge_tagged(stdout@, stderr@)),
        r.spec_exit_code() == exit_code,
        r.wf(),
{
    let merged = merge_by_timestamp(&stdout, &stderr);
    let combined = untag_lines(&merged);
    let out = untag_lines(&stdout);
    let err = untag_lines(&stderr);
    ProcessOutput::new(
        Some(out),
        Some(err),
        combined,
        exit_code,
        OCatchStrategy::StdSeparately,
    )
}

/// Capture from one channel is exact: a drain that consumed the stream
/// of a writer that produced `lines`, each free of newlines and each
/// followed by one, holds exactly those lines, in order. This holds for
/// the one shared channel of the combined strategy and equally for each
/// single stream of the separate strategy.
pub proof fn lemma_capture_exact(drain: StreamDrain, lines: Seq<Seq<char>>)
    requires
        drain.wf(),
        newline_free(lines),
        drain.consumed@ == join_lines(lines),
    ensures
        drain.lines@.map_values(|l: TaggedLine| l.1@) == lines,
        drain.pending@ == Seq::<char>::empty(),
{
    lemma_lines_round_trip(lines);
}

/// Capturing a deterministic program twice differs only in the capture
/// timestamps; the per-stream line sequences ignore those tags, so both
/// runs deliver the same per-stream output.
pub proof fn lemma_untag_ignores_timestamps(a1: Seq<TaggedLine>, a2: Seq<TaggedLine>)
    requires
        a1.len() == a2.len(),
        forall|i: int| 0 <= i < a1.len() ==> (#[trigger] a1[i]).1 == a2[i].1,
    ensures
        untag(a1) == untag(a2),
{
    assert(untag(a1) =~= untag(a2));
}

} // verus!

