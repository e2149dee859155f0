use rustproto::capture::capture_write;
use rustproto::capture::CaptureBuffer;
use rustproto::run::classify_outcome;
use rustproto::run::JoinOutcome;
use rustproto::run::RunOutcome;
use rustproto::run::RunState;

#[test]
fn capture_accepts_every_byte_of_a_delivery() {
    let mut buf = CaptureBuffer::new();
    assert_eq!(buf.len(), 0);
    let r1 = capture_write(&mut buf, b"hello ");
    assert_eq!(r1, 6);
    let r2 = capture_write(&mut buf, b"world");
    assert_eq!(r2, 5);
    assert_eq!(buf.len(), 11);
    assert_eq!(buf.into_inner(), b"hello world".to_vec());
}

#[test]
fn capture_reports_zero_for_an_empty_delivery() {
    let mut buf = CaptureBuffer::new();
    capture_write(&mut buf, b"abc");
    let r = capture_write(&mut buf, b"");
    assert_eq!(r, 0);
    assert_eq!(buf.into_inner(), b"abc".to_vec());
}

#[test]
fn outcomes_are_classified_exactly() {
    assert_eq!(
        classify_outcome(JoinOutcome::Finished { status: 0 }, false),
        RunOutcome::Completed
    );
    // A clean exit is a completion even if cancellation had been asked for.
    assert_eq!(
        classify_outcome(JoinOutcome::Finished { status: 0 }, true),
        RunOutcome::Completed
    );
    assert_eq!(
        classify_outcome(JoinOutcome::Finished { status: 1 }, false),
        RunOutcome::NativeFailure { status: 1 }
    );
    assert_eq!(
        classify_outcome(JoinOutcome::Finished { status: -22 }, false),
        RunOutcome::NativeFailure { status: -22 }
    );
    // Cancellation is not a failure: it is its own terminal state.
    assert_eq!(
        classify_outcome(JoinOutcome::Finished { status: 255 }, true),
        RunOutcome::Cancelled
    );
    assert_eq!(
        classify_outcome(JoinOutcome::Panicked, false),
        RunOutcome::SupervisionFailure
    );
    assert_eq!(
        classify_outcome(JoinOutcome::Panicked, true),
        RunOutcome::SupervisionFailure
    );
}

#[test]
fn a_run_reaches_exactly_one_terminal_state() {
    let mut state = RunState::Created;
    state.start();
    assert_eq!(state, RunState::Running { cancel_requested: false });
    state.request_cancel();
    assert_eq!(state, RunState::Running { cancel_requested: true });
    let outcome = state.finish(JoinOutcome::Finished { status: 130 });
    assert_eq!(outcome, RunOutcome::Cancelled);
    assert_eq!(state, RunState::Done { outcome: RunOutcome::Cancelled });
    // Cancelling after the end leaves the terminal state untouched.
    state.request_cancel();
    assert_eq!(state, RunState::Done { outcome: RunOutcome::Cancelled });
}

#[test]
fn an_uncancelled_run_completes() {
    let mut state = RunState::Created;
    state.start();
    let outcome = state.finish(JoinOutcome::Finished { status: 0 });
    assert_eq!(outcome, RunOutcome::Completed);
    assert_eq!(state, RunState::Done { outcome: RunOutcome::Completed });
}

#[test]
fn error_reports_carry_their_message() {
    let e = rustproto::run::FfprobeError {
        message: String::from("ffprobe_run failed: 1"),
        stderr: b"boom".to_vec(),
        args: vec![String::from("ffprobe")],
    };
    assert_eq!(e.message_text(), "ffprobe_run failed: 1");
}
