//! The reader: what to do with each thing that the stream of events yields.
//!
//! The reader reads the stream, the relay says what each item means, and the
//! reader puts the messages on the queue, waiting where the queue is full.
//! Reading and waiting are the caller's part; this module holds the decisions.

use crate::client::{Client, ClientView};
use crate::error::{EventError, RelayError, RelayErrorView};
use crate::event::{Event, EventView};
use crate::outgoing::{outgoing_view, OutgoingMessage, OutgoingMessageView};
use vstd::prelude::*;

verus! {

/// What has happened to the reader since its last step.
#[derive(Debug)]
pub enum ReaderEvent {
    /// The stream has yielded an event.
    Streamed(Event),
    /// The stream has failed; the text is the backend's report.
    StreamFailed(String),
    /// The stream has ended.
    StreamEnded,
    /// The queue has taken every message of the last step.
    Queued,
    /// The queue has lost its reading end.
    QueueClosed,
}

/// What has happened to the reader, as plain values.
pub enum ReaderEventView {
    Streamed(EventView),
    StreamFailed(Seq<char>),
    StreamEnded,
    Queued,
    QueueClosed,
}

impl View for ReaderEvent {
    type V = ReaderEventView;

    open spec fn view(&self) -> ReaderEventView {
        match *self {
            ReaderEvent::Streamed(event) => ReaderEventView::Streamed(event@),
            ReaderEvent::StreamFailed(report) => ReaderEventView::StreamFailed(report@),
            ReaderEvent::StreamEnded => ReaderEventView::StreamEnded,
            ReaderEvent::Queued => ReaderEventView::Queued,
            ReaderEvent::QueueClosed => ReaderEventView::QueueClosed,
        }
    }
}

/// What the reader is to do next.
#[derive(Debug)]
pub enum ReaderStep {
    /// Take the next item from the stream.
    Read,
    /// Put these messages on the queue, in this order, waiting for room where
    /// the queue is full; then tell whether the queue has taken them.
    Enqueue(Vec<OutgoingMessage>),
    /// Report that the event could not be relayed, then take the next item
    /// from the stream.
    Report(EventError),
    /// End the relay with this error.
    Stop(RelayError),
}

/// What the reader is to do next, as plain values.
pub enum ReaderStepView {
    Read,
    Enqueue(Seq<OutgoingMessageView>),
    Report(EventError),
    Stop(RelayErrorView),
}

impl View for ReaderStep {
    type V = ReaderStepView;

    open spec fn view(&self) -> ReaderStepView {
        match *self {
            ReaderStep::Read => ReaderStepView::Read,
            ReaderStep::Enqueue(messages) => ReaderStepView::Enqueue(outgoing_view(messages@)),
            ReaderStep::Report(missing) => ReaderStepView::Report(missing),
            ReaderStep::Stop(error) => ReaderStepView::Stop(error@),
        }
    }
}

impl ClientView {
    /// The reader's next step. A stream that fails or ends, and a queue that
    /// nobody reads, end the relay. An event that cannot be relayed is
    /// reported and passed over.
    pub open spec fn read(self, nick: Seq<char>, event: ReaderEventView) -> ReaderStepView {
        match event {
            ReaderEventView::Streamed(streamed) => match self.relay(nick, streamed) {
                Ok(messages) => ReaderStepView::Enqueue(messages),
                Err(missing) => ReaderStepView::Report(missing),
            },
            ReaderEventView::StreamFailed(report) => ReaderStepView::Stop(
                RelayErrorView::Stream(report),
            ),
            ReaderEventView::StreamEnded => ReaderStepView::Stop(RelayErrorView::ReaderExitedEarly),
            ReaderEventView::Queued => ReaderStepView::Read,
            ReaderEventView::QueueClosed => ReaderStepView::Stop(RelayErrorView::QueueClosed),
        }
    }
}

impl Client {
    /// The reader's next step after `event`, when the relay's own name on the
    /// backend is `current_nick`.
    pub fn reader_step(&self, event: ReaderEvent, current_nick: &str) -> (step: ReaderStep)
        ensures
            step@ == self@.read(current_nick@, event@),
    {
        match event {
            ReaderEvent::Streamed(streamed) => match self.handle_event(streamed, current_nick) {
                Ok(messages) => ReaderStep::Enqueue(messages),
                Err(missing) => ReaderStep::Report(missing),
            },
            ReaderEvent::StreamFailed(report) => ReaderStep::Stop(RelayError::Stream(report)),
            ReaderEvent::StreamEnded => ReaderStep::Stop(RelayError::ReaderExitedEarly),
            ReaderEvent::Queued => ReaderStep::Read,
            ReaderEvent::QueueClosed => ReaderStep::Stop(RelayError::QueueClosed),
        }
    }
}

} // verus!
