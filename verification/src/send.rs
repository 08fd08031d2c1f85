//! Sending one frame: the outside work, in its order, and what ends it.
//!
//! A send opens a fresh outbound stream, writes the length prefix, writes
//! the payload, and closes the stream. The caller does each step and says
//! how it went; `send_step` says how to go on. The first step that fails
//! ends the send with the error of that step: no later step is run, none is
//! run again, and no second stream is opened.

use crate::message::CodecError;
use crate::outcome::StageOutcome;
use vstd::prelude::*;

verus! {

/// Why a message could not be sent.
#[derive(Debug, Clone, Copy, PartialEq, Eq)]
pub enum SendError {
    /// The session has no live connection.
    NoActiveConnection,
    /// The message could not be encoded.
    Encode(CodecError),
    /// The encoding is longer than the length prefix can say.
    MessageTooLong,
    /// The outbound stream could not be opened.
    OpenStream,
    /// Writing the length prefix failed.
    WriteLength,
    /// Writing the payload failed.
    WritePayload,
    /// Closing the stream failed.
    Finish,
}

/// The outside work of sending one frame, in the order in which it is done.
#[derive(Debug, Clone, Copy, PartialEq, Eq)]
pub enum SendStep {
    /// Open a fresh outbound stream on the connection.
    OpenStream,
    /// Write the four bytes of the length prefix.
    WriteLength,
    /// Write the payload.
    WritePayload,
    /// Close the stream, which tells the peer that the message is complete.
    Finish,
}

/// Where a send stands after a step.
#[derive(Debug, Clone, Copy, PartialEq, Eq)]
pub enum SendProgress {
    /// Go on with this step.
    Next(SendStep),
    /// The message is written and the stream closed.
    Done,
    /// The send is over; nothing more is done.
    Failed(SendError),
}

impl SendStep {
    /// The step that follows this one, `None` after the last.
    pub open spec fn spec_next(self) -> Option<SendStep> {
        match self {
            SendStep::OpenStream => Some(SendStep::WriteLength),
            SendStep::WriteLength => Some(SendStep::WritePayload),
            SendStep::WritePayload => Some(SendStep::Finish),
            SendStep::Finish => None,
        }
    }

    /// The error that a send ends with when this step fails.
    pub open spec fn spec_failure(self) -> SendError {
        match self {
            SendStep::OpenStream => SendError::OpenStream,
            SendStep::WriteLength => SendError::WriteLength,
            SendStep::WritePayload => SendError::WritePayload,
            SendStep::Finish => SendError::Finish,
        }
    }

    /// The place of the step in the order of a send, counted from zero.
    pub open spec fn place(self) -> nat {
        match self {
            SendStep::OpenStream => 0,
            SendStep::WriteLength => 1,
            SendStep::WritePayload => 2,
            SendStep::Finish => 3,
        }
    }

    /// The first step of a send.
    pub fn first() -> (step: SendStep)
        ensures
            step == SendStep::OpenStream,
    {
        SendStep::OpenStream
    }

    /// The step that follows this one, `None` after the last.
    pub fn next(self) -> (next: Option<SendStep>)
        ensures
            next == self.spec_next(),
    {
        match self {
            SendStep::OpenStream => Some(SendStep::WriteLength),
            SendStep::WriteLength => Some(SendStep::WritePayload),
            SendStep::WritePayload => Some(SendStep::Finish),
            SendStep::Finish => None,
        }
    }

    /// The error that a send ends with when this step fails.
    pub fn failure(self) -> (error: SendError)
        ensures
            error == self.spec_failure(),
    {
        match self {
            SendStep::OpenStream => SendError::OpenStream,
            SendStep::WriteLength => SendError::WriteLength,
            SendStep::WritePayload => SendError::WritePayload,
            SendStep::Finish => SendError::Finish,
        }
    }
}

/// Where a send stands after `step` went as `outcome` says.
pub open spec fn send_progress_after(step: SendStep, outcome: StageOutcome) -> SendProgress {
    match outcome {
        StageOutcome::Failed => SendProgress::Failed(step.spec_failure()),
        StageOutcome::Succeeded => match step.spec_next() {
            Some(next) => SendProgress::Next(next),
            None => SendProgress::Done,
        },
    }
}

/// Takes the step of a send that was just tried and how it went, and says
/// how to go on. A failure ends the send with the error of its step, and
/// nothing is tried again.
pub fn send_step(step: SendStep, outcome: StageOutcome) -> (progress: SendProgress)
    ensures
        progress == send_progress_after(step, outcome),
{
    match outcome {
        StageOutcome::Failed => SendProgress::Failed(step.failure()),
        StageOutcome::Succeeded => match step.next() {
            Some(next) => SendProgress::Next(next),
            None => SendProgress::Done,
        },
    }
}

/// Where a send stands that is at `step` and whose further steps go as
/// `outcomes` say, one outcome for each step that is run. Outcomes behind
/// the end of the send belong to no step.
pub open spec fn send_run(step: SendStep, outcomes: Seq<StageOutcome>) -> SendProgress
    decreases outcomes.len(),
{
    if outcomes.len() == 0 {
        SendProgress::Next(step)
    } else {
        match send_progress_after(step, outcomes[0]) {
            SendProgress::Next(next) => send_run(next, outcomes.drop_first()),
            end => end,
        }
    }
}

/// The steps that are run when a send is at `step` and its steps go as
/// `outcomes` say.
pub open spec fn steps_run(step: SendStep, outcomes: Seq<StageOutcome>) -> Seq<SendStep>
    decreases outcomes.len(),
{
    if outcomes.len() == 0 {
        Seq::empty()
    } else {
        match send_progress_after(step, outcomes[0]) {
            SendProgress::Next(next) => seq![step] + steps_run(next, outcomes.drop_first()),
            _ => seq![step],
        }
    }
}

/// A step that fails ends the send with its own error, whichever step it
/// is; a step that succeeds leads to the step one place further on, or to
/// the end after the last.
pub proof fn lemma_failure_ends_the_send(step: SendStep)
    ensures
        send_progress_after(step, StageOutcome::Failed) == SendProgress::Failed(
            step.spec_failure(),
        ),
        send_progress_after(step, StageOutcome::Succeeded) matches SendProgress::Next(next)
            ==> next.place() == step.place() + 1,
        send_progress_after(step, StageOutcome::Succeeded) is Done <==> step is Finish,
{
}

/// A send whose first stream cannot be opened ends there: the one step run
/// is the opening, and nothing is written.
pub proof fn lemma_failed_open_writes_nothing(outcomes: Seq<StageOutcome>)
    requires
        outcomes.len() > 0,
        outcomes[0] is Failed,
    ensures
        send_run(SendStep::OpenStream, outcomes) == SendProgress::Failed(SendError::OpenStream),
        steps_run(SendStep::OpenStream, outcomes) == seq![SendStep::OpenStream],
{
}

/// Whatever the outcomes, the steps of a send are run in their order, each
/// at most once, and the last step run is the only one that may have
/// failed.
pub proof fn lemma_steps_in_order(step: SendStep, outcomes: Seq<StageOutcome>)
    ensures
        forall|i: int|
            0 <= i < steps_run(step, outcomes).len() ==> #[trigger] steps_run(
                step,
                outcomes,
            )[i].place() == step.place() + i,
        steps_run(step, outcomes).len() <= outcomes.len(),
        forall|i: int|
            0 <= i < steps_run(step, outcomes).len() - 1 ==> #[trigger] outcomes[i] is Succeeded,
    decreases outcomes.len(),
{
    if outcomes.len() > 0 {
        match send_progress_after(step, outcomes[0]) {
            SendProgress::Next(next) => {
                let rest = outcomes.drop_first();
                lemma_steps_in_order(next, rest);
                let run = steps_run(step, outcomes);
                let tail = steps_run(next, rest);
                assert(run =~= seq![step] + tail);
                assert forall|i: int| 0 <= i < run.len() implies #[trigger] run[i].place()
                    == step.place() + i by {
                    if i > 0 {
                        assert(run[i] == tail[i - 1]);
                    }
                }
                assert forall|i: int| 0 <= i < run.len() - 1 implies #[trigger] outcomes[i]
                    is Succeeded by {
                    if i > 0 {
                        assert(outcomes[i] == rest[i - 1]);
                    }
                }
            },
            _ => {},
        }
    }
}

/// A send is done exactly if its four steps succeeded, and it then ran just
/// these four; if a step failed after the others before it succeeded, the
/// send ends with the error of that step.
pub proof fn lemma_send_outcome(outcomes: Seq<StageOutcome>)
    requires
        outcomes.len() == 4,
    ensures
        send_run(SendStep::OpenStream, outcomes) is Done <==> (forall|i: int|
            0 <= i < 4 ==> outcomes[i] is Succeeded),
        !(send_run(SendStep::OpenStream, outcomes) is Next),
        outcomes[0] is Failed ==> send_run(SendStep::OpenStream, outcomes) == SendProgress::Failed(
            SendError::OpenStream,
        ),
        outcomes[0] is Succeeded && outcomes[1] is Failed ==> send_run(
            SendStep::OpenStream,
            outcomes,
        ) == SendProgress::Failed(SendError::WriteLength),
        outcomes[0] is Succeeded && outcomes[1] is Succeeded && outcomes[2] is Failed ==> send_run(
            SendStep::OpenStream,
            outcomes,
        ) == SendProgress::Failed(SendError::WritePayload),
        outcomes[0] is Succeeded && outcomes[1] is Succeeded && outcomes[2] is Succeeded
            && outcomes[3] is Failed ==> send_run(SendStep::OpenStream, outcomes)
            == SendProgress::Failed(SendError::Finish),
{
    reveal_with_fuel(send_run, 5);
    let a = outcomes.drop_first();
    let b = a.drop_first();
    let c = b.drop_first();
    assert(a[0] == outcomes[1] && b[0] == outcomes[2] && c[0] == outcomes[3]);
    assert(c.drop_first().len() == 0);
}

} // verus!
