use unix_exec_output_catcher::pipe::{CatchPipes, Pipe, PipeEnd};
use unix_exec_output_catcher::reader::{
    assemble_combined_output, assemble_separate_output, capture_complete, untag_lines,
    StreamDrain,
};
use unix_exec_output_catcher::child::ProcessState;
use unix_exec_output_catcher::error::UECOError;
use unix_exec_output_catcher::OCatchStrategy;

fn feed(drain: &mut StreamDrain, text: &str, ts: u64) {
    for b in text.as_bytes() {
        drain.push_byte(*b, ts);
    }
}

#[test]
fn hello_combined() {
    // a child that writes "hello\n" to stdout only, captured combined
    let mut drain = StreamDrain::new();
    feed(&mut drain, "hello\n", 1);
    let out = assemble_combined_output(drain.into_lines(), 0);
    assert_eq!(out.stdcombined_lines(), &vec!["hello".to_string()]);
    assert!(out.stdout_lines().is_none());
    assert!(out.stderr_lines().is_none());
    assert_eq!(out.exit_code(), 0);
    assert!(matches!(out.strategy(), OCatchStrategy::StdCombined));
}

#[test]
fn hello_separately() {
    // the same child captured with two independent channels
    let mut stdout = StreamDrain::new();
    let stderr = StreamDrain::new();
    feed(&mut stdout, "hello\n", 1);
    let out = assemble_separate_output(stdout.into_lines(), stderr.into_lines(), 0);
    assert_eq!(out.stdout_lines().unwrap(), &vec!["hello".to_string()]);
    assert_eq!(out.stderr_lines().unwrap(), &Vec::<String>::new());
    assert_eq!(out.stdcombined_lines(), &vec!["hello".to_string()]);
    assert_eq!(out.exit_code(), 0);
    assert!(matches!(out.strategy(), OCatchStrategy::StdSeparately));
}

#[test]
fn alternating_lines_merged_in_order() {
    // 10 alternating lines, 5 per stream, each separated by a delay far
    // above the timestamp granularity: the merge restores the order
    let mut stdout = StreamDrain::new();
    let mut stderr = StreamDrain::new();
    let mut expected: Vec<String> = Vec::new();
    for i in 0..5u64 {
        let out_line = format!("out {}", i);
        let err_line = format!("err {}", i);
        feed(&mut stdout, &format!("{}\n", out_line), 200 * i + 100);
        feed(&mut stderr, &format!("{}\n", err_line), 200 * i + 200);
        expected.push(out_line);
        expected.push(err_line);
    }
    let out = assemble_separate_output(stdout.into_lines(), stderr.into_lines(), 0);
    assert_eq!(out.stdcombined_lines(), &expected);
    assert_eq!(out.stdout_lines().unwrap().len(), 5);
    assert_eq!(out.stderr_lines().unwrap().len(), 5);
}

#[test]
fn silent_child_yields_empty_output() {
    // a child that exits without writing anything
    let combined = StreamDrain::new();
    let out = assemble_combined_output(combined.into_lines(), 0);
    assert!(out.stdcombined_lines().is_empty());
    assert_eq!(out.exit_code(), 0);

    let stdout = StreamDrain::new();
    let stderr = StreamDrain::new();
    let out = assemble_separate_output(stdout.into_lines(), stderr.into_lines(), 0);
    assert!(out.stdout_lines().unwrap().is_empty());
    assert!(out.stderr_lines().unwrap().is_empty());
    assert!(out.stdcombined_lines().is_empty());
    assert_eq!(out.exit_code(), 0);
}

#[test]
fn read_requires_consumer_assignment() {
    // a read from a pipe never assigned as read end must be refused
    // without any byte having been read
    let pipe = Pipe::new(3, 4);
    assert!(matches!(
        pipe.consumer_fd(),
        Err(UECOError::PipeNotMarkedAsReadEnd)
    ));

    let mut pipe = Pipe::new(3, 4);
    let to_close = pipe.mark_as_parent_process();
    assert_eq!(to_close, 4);
    assert_eq!(pipe.consumer_fd().unwrap(), 3);
}

#[test]
fn producer_side_is_not_readable() {
    let mut pipe = Pipe::new(5, 6);
    let to_close = pipe.mark_as_child_process();
    assert_eq!(to_close, 5);
    assert!(matches!(pipe.end, Some(PipeEnd::Write)));
    assert!(matches!(
        pipe.consumer_fd(),
        Err(UECOError::PipeNotMarkedAsReadEnd)
    ));
}

#[test]
fn unterminated_fragment_is_dropped() {
    let mut drain = StreamDrain::new();
    feed(&mut drain, "ab\ncd", 1);
    let lines = drain.into_lines();
    assert_eq!(untag_lines(&lines), vec!["ab".to_string()]);
}

#[test]
fn empty_lines_are_lines() {
    let mut drain = StreamDrain::new();
    feed(&mut drain, "\n\n", 1);
    assert_eq!(
        untag_lines(&drain.into_lines()),
        vec![String::new(), String::new()]
    );
}

#[test]
fn line_timestamp_is_taken_at_newline() {
    let mut drain = StreamDrain::new();
    feed(&mut drain, "ab", 10);
    drain.push_byte(b'\n', 25);
    let lines = drain.into_lines();
    assert_eq!(lines, vec![(25, "ab".to_string())]);
}

#[test]
fn timestamps_never_run_backward() {
    // a clock that misbehaves cannot make the recorded tags decrease
    let mut drain = StreamDrain::new();
    feed(&mut drain, "a\n", 30);
    feed(&mut drain, "b\n", 20);
    feed(&mut drain, "c\n", 40);
    let lines = drain.into_lines();
    assert_eq!(lines[0].0, 30);
    assert_eq!(lines[1].0, 30);
    assert_eq!(lines[2].0, 40);
}

#[test]
fn merge_keeps_both_lines_on_a_timestamp_tie() {
    // equal timestamps: the stdout line comes first, nothing is lost
    let mut stdout = StreamDrain::new();
    let mut stderr = StreamDrain::new();
    feed(&mut stdout, "from out\n", 7);
    feed(&mut stderr, "from err\n", 7);
    let out = assemble_separate_output(stdout.into_lines(), stderr.into_lines(), 0);
    assert_eq!(
        out.stdcombined_lines(),
        &vec!["from out".to_string(), "from err".to_string()]
    );
}

#[test]
fn per_stream_order_ignores_timestamps() {
    // however the clamped tags fall, each stream's own sequence is its
    // true arrival order
    let mut stdout = StreamDrain::new();
    feed(&mut stdout, "first\n", 50);
    feed(&mut stdout, "second\n", 10);
    let stderr = StreamDrain::new();
    let out = assemble_separate_output(stdout.into_lines(), stderr.into_lines(), 0);
    assert_eq!(
        out.stdout_lines().unwrap(),
        &vec!["first".to_string(), "second".to_string()]
    );
}

#[test]
fn termination_needs_both_signals() {
    assert!(!capture_complete(false, ProcessState::FinishedSuccess));
    assert!(!capture_complete(true, ProcessState::Running));
    assert!(capture_complete(true, ProcessState::FinishedSuccess));
    assert!(capture_complete(true, ProcessState::FinishedError(3)));
}

#[test]
fn catch_pipes_follow_strategy() {
    let cp = CatchPipes::Combined(Pipe::new(3, 4));
    assert!(matches!(cp.strategy(), OCatchStrategy::StdCombined));
    let cp = CatchPipes::Separately {
        stdout: Pipe::new(3, 4),
        stderr: Pipe::new(5, 6),
    };
    assert!(matches!(cp.strategy(), OCatchStrategy::StdSeparately));
}
