//! The writer: what to do with each message that comes off the queue, and
//! with each answer of the backend.
//!
//! The writer makes one call at a time, in the order of the queue. A call
//! that fails is reported with its channel; the writer then goes on with the
//! next message. Only a queue that nobody fills any more ends the writer.

use crate::error::{RelayError, RelayErrorView};
use crate::outgoing::{OutgoingMessage, OutgoingMessageView};
use vstd::prelude::*;

verus! {

/// How a call on the backend went: done, or failed with the backend's report.
pub open spec fn outcome_text(outcome: Result<(), String>) -> Result<(), Seq<char>> {
    match outcome {
        Ok(()) => Ok(()),
        Err(report) => Err(report@),
    }
}

/// What an optional message holds, as plain values.
pub open spec fn optional_message(message: Option<OutgoingMessage>) -> Option<OutgoingMessageView> {
    match message {
        Some(m) => Some(m@),
        None => None,
    }
}

/// What has happened to the writer since its last step.
#[derive(Debug)]
pub enum WriterEvent {
    /// The queue has yielded a message, or has ended.
    Received(Option<OutgoingMessage>),
    /// The backend has answered the call for `channel_id`.
    Delivered { channel_id: String, outcome: Result<(), String> },
}

/// What has happened to the writer, as plain values.
pub enum WriterEventView {
    Received(Option<OutgoingMessageView>),
    Delivered { channel_id: Seq<char>, outcome: Result<(), Seq<char>> },
}

impl View for WriterEvent {
    type V = WriterEventView;

    open spec fn view(&self) -> WriterEventView {
        match *self {
            WriterEvent::Received(message) => WriterEventView::Received(optional_message(message)),
            WriterEvent::Delivered { channel_id, outcome } => WriterEventView::Delivered {
                channel_id: channel_id@,
                outcome: outcome_text(outcome),
            },
        }
    }
}

/// What the writer is to do next.
#[derive(Debug)]
pub enum WriterStep {
    /// Take the next message from the queue.
    Receive,
    /// Make this call on the backend: send the message, or perform the
    /// action; then tell how it went.
    Deliver(OutgoingMessage),
    /// Report that the call for `channel_id` has failed, then take the next
    /// message from the queue.
    Report { channel_id: String, reason: String },
    /// End the relay with this error.
    Stop(RelayError),
}

/// What the writer is to do next, as plain values.
pub enum WriterStepView {
    Receive,
    Deliver(OutgoingMessageView),
    Report { channel_id: Seq<char>, reason: Seq<char> },
    Stop(RelayErrorView),
}

impl View for WriterStep {
    type V = WriterStepView;

    open spec fn view(&self) -> WriterStepView {
        match *self {
            WriterStep::Receive => WriterStepView::Receive,
            WriterStep::Deliver(message) => WriterStepView::Deliver(message@),
            WriterStep::Report { channel_id, reason } => WriterStepView::Report {
                channel_id: channel_id@,
                reason: reason@,
            },
            WriterStep::Stop(error) => WriterStepView::Stop(error@),
        }
    }
}

impl WriterStepView {
    /// After this step the writer takes the next message from the queue.
    pub open spec fn goes_on(self) -> bool {
        self is Receive || self is Report
    }
}

/// The writer's next step. Each message of the queue becomes one call. A
/// call that has failed is reported, and the writer goes on. A queue that
/// has ended ends the relay.
pub open spec fn write(event: WriterEventView) -> WriterStepView {
    match event {
        WriterEventView::Received(Some(message)) => WriterStepView::Deliver(message),
        WriterEventView::Received(None) => WriterStepView::Stop(RelayErrorView::WriterExitedEarly),
        WriterEventView::Delivered { channel_id, outcome } => match outcome {
            Ok(()) => WriterStepView::Receive,
            Err(reason) => WriterStepView::Report { channel_id, reason },
        },
    }
}

/// The writer's next step after `event`.
///
/// Whatever the backend has answered, the writer goes on with the queue.
pub fn writer_step(event: WriterEvent) -> (step: WriterStep)
    ensures
        step@ == write(event@),
        event@ is Delivered ==> step@.goes_on(),
{
    match event {
        WriterEvent::Received(Some(message)) => WriterStep::Deliver(message),
        WriterEvent::Received(None) => WriterStep::Stop(RelayError::WriterExitedEarly),
        WriterEvent::Delivered { channel_id, outcome } => match outcome {
            Ok(()) => WriterStep::Receive,
            Err(reason) => WriterStep::Report { channel_id, reason },
        },
    }
}

/// The calls that the writer makes, in their order, when the queue yields
/// `pending` and the backend answers the calls with `outcomes`, one for each.
pub open spec fn calls_made(
    pending: Seq<OutgoingMessageView>,
    outcomes: Seq<Result<(), Seq<char>>>,
) -> Seq<OutgoingMessageView>
    decreases pending.len(),
{
    if pending.len() == 0 {
        Seq::empty()
    } else {
        match write(WriterEventView::Received(Some(pending.first()))) {
            WriterStepView::Deliver(call) => {
                let answered = write(
                    WriterEventView::Delivered {
                        channel_id: call.request().channel_id,
                        outcome: outcomes.first(),
                    },
                );
                if answered.goes_on() {
                    seq![call] + calls_made(pending.drop_first(), outcomes.drop_first())
                } else {
                    seq![call]
                }
            },
            _ => Seq::empty(),
        }
    }
}

/// How the relay ends, given how the reader and the writer have ended
/// together: with the error of the one that failed, and with an error of its
/// own where neither did.
pub open spec fn run_error(joined: Result<(), RelayErrorView>) -> RelayErrorView {
    match joined {
        Err(error) => error,
        Ok(()) => RelayErrorView::RunExitedEarly,
    }
}

/// What a joined result holds, as plain values.
pub open spec fn joined_view(joined: Result<(), RelayError>) -> Result<(), RelayErrorView> {
    match joined {
        Ok(()) => Ok(()),
        Err(error) => Err(error@),
    }
}

/// The error with which the relay ends, given how the reader and the writer
/// have ended together. The relay is meant to run for ever, so every end is
/// an error.
pub fn run_verdict(joined: Result<(), RelayError>) -> (error: RelayError)
    ensures
        error@ == run_error(joined_view(joined)),
{
    match joined {
        Err(error) => error,
        Ok(()) => RelayError::RunExitedEarly,
    }
}

} // verus!
