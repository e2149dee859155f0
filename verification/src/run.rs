//! Run supervision state: the per-run state machine and the
//! classification of a finished background call into the mutually
//! exclusive terminal outcomes. The thread itself, the native call and
//! the join live with the embedder; it reports what it observed and this
//! module decides what that means.

use vstd::prelude::*;

verus! {

/// What the embedder observed when the background thread was joined.
#[derive(Debug, PartialEq, Eq, Structural, Clone, Copy)]
pub enum JoinOutcome {
    /// The native entry point returned this status.
    Finished { status: i32 },
    /// The background thread panicked; no status exists.
    Panicked,
}

/// The terminal state of a run. The variants are mutually exclusive and
/// a run reaches exactly one of them, exactly once.
#[derive(Debug, PartialEq, Eq, Structural, Clone, Copy)]
pub enum RunOutcome {
    /// The native entry point returned zero.
    Completed,
    /// The native entry point returned non-zero after cancellation had
    /// been requested; cancellation is not a failure.
    Cancelled,
    /// The native entry point returned this non-zero status on its own.
    NativeFailure { status: i32 },
    /// The background thread panicked: a host-level failure, kept
    /// distinct from an engine-level one.
    SupervisionFailure,
}

/// How a join observation is classified, given whether cancellation had
/// been requested beforehand.
pub open spec fn spec_classify(join: JoinOutcome, cancel_requested: bool) -> RunOutcome {
    match join {
        JoinOutcome::Panicked => RunOutcome::SupervisionFailure,
        JoinOutcome::Finished { status } => if status == 0 {
            RunOutcome::Completed
        } else if cancel_requested {
            RunOutcome::Cancelled
        } else {
            RunOutcome::NativeFailure { status }
        },
    }
}

/// Classify a join observation; see [`spec_classify`].
pub fn classify_outcome(join: JoinOutcome, cancel_requested: bool) -> (r: RunOutcome)
    ensures
        r == spec_classify(join, cancel_requested),
{
    match join {
        JoinOutcome::Panicked => RunOutcome::SupervisionFailure,
        JoinOutcome::Finished { status } => {
            if status == 0 {
                RunOutcome::Completed
            } else if cancel_requested {
                RunOutcome::Cancelled
            } else {
                RunOutcome::NativeFailure { status }
            }
        },
    }
}

/// Cancellation is never reported as failure, and the terminal states
/// keep cancellation and genuine failure apart: a run classifies as
/// cancelled only when cancellation was requested, and a run with
/// cancellation requested never classifies as an engine failure.
pub proof fn lemma_cancellation_is_distinguishable(join: JoinOutcome, cancel_requested: bool)
    ensures
        spec_classify(join, cancel_requested) is Cancelled ==> cancel_requested,
        !(spec_classify(join, true) is NativeFailure),
{
}

/// The lifecycle of one run: prepared, then running on the background
/// thread, then exactly one terminal outcome.
#[derive(Debug, PartialEq, Eq, Structural, Clone, Copy)]
pub enum RunState {
    /// Resources are prepared; the thread has not been spawned.
    Created,
    /// The background thread is executing the native call.
    Running { cancel_requested: bool },
    /// The thread has been joined and the run classified.
    Done { outcome: RunOutcome },
}

impl RunState {
    /// A run is in a terminal state once it is done.
    pub open spec fn is_terminal(self) -> bool {
        self is Done
    }

    /// The background thread has been spawned.
    pub fn start(&mut self)
        requires
            *old(self) is Created,
        ensures
            *final(self) == (RunState::Running { cancel_requested: false }),
    {
        *self = RunState::Running { cancel_requested: false };
    }

    /// Cancellation was requested while the run was underway. Advisory:
    /// the state stays `Running` until the thread is joined, and a run
    /// that already ended is left as it is.
    pub fn request_cancel(&mut self)
        ensures
            *final(self) == match *old(self) {
                RunState::Running { cancel_requested: _ } => RunState::Running {
                    cancel_requested: true,
                },
                s => s,
            },
    {
        match *self {
            RunState::Running { cancel_requested: _ } => {
                *self = RunState::Running { cancel_requested: true };
            },
            _ => (),
        }
    }

    /// The background thread was joined with this observation: the run
    /// reaches its terminal state. Requiring `Running` here is what makes
    /// a terminal state unrepeatable — a finished run cannot be finished
    /// again.
    pub fn finish(&mut self, join: JoinOutcome) -> (r: RunOutcome)
        requires
            *old(self) is Running,
        ensures
            r == spec_classify(join, old(self)->Running_cancel_requested),
            *final(self) == (RunState::Done { outcome: r }),
            final(self).is_terminal(),
    {
        let cancel_requested = match *self {
            RunState::Running { cancel_requested } => cancel_requested,
            _ => false,
        };
        let outcome = classify_outcome(join, cancel_requested);
        *self = RunState::Done { outcome };
        outcome
    }
}

/// Failure report of an introspection run: what went wrong, the
/// error-stream bytes captured up to that point, and the argument list
/// the run was invoked with.
#[derive(Debug, Clone)]
pub struct FfprobeError {
    /// Human-readable description of the failure.
    pub message: String,
    /// Bytes the engine wrote to its error stream before failing.
    pub stderr: Vec<u8>,
    /// The argument template the run was started from.
    pub args: Vec<String>,
}

impl FfprobeError {
    /// The description of the failure, for display.
    pub fn message_text(&self) -> (r: &str)
        ensures
            r@ == self.message@,
    {
        self.message.as_str()
    }
}

} // verus!
