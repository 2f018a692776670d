//! What can go wrong: with a single event, which the relay reports and
//! passes over, and with the relay as a whole, which ends it.

use vstd::prelude::*;

verus! {

/// An event that cannot be relayed because a part of it is missing. Such an
/// event is reported and dropped; the relay goes on.
#[derive(Clone, Copy, Debug, PartialEq, Eq, Structural)]
pub enum EventError {
    /// The event does not say what happened.
    MissingInner,
    /// The event does not say where it happened.
    MissingSource,
    /// The event does not say who did it.
    MissingUser,
}

/// How grave a report is.
#[derive(Clone, Copy, Debug, PartialEq, Eq, Structural)]
pub enum Severity {
    Warning,
    Error,
}

impl EventError {
    /// How grave the error is: an event that says nothing at all is worth a
    /// warning, one that lacks its source or its user an error.
    pub open spec fn gravity(self) -> Severity {
        match self {
            EventError::MissingInner => Severity::Warning,
            EventError::MissingSource => Severity::Error,
            EventError::MissingUser => Severity::Error,
        }
    }

    /// How grave the error is.
    pub fn severity(&self) -> (level: Severity)
        ensures
            level == self.gravity(),
    {
        match self {
            EventError::MissingInner => Severity::Warning,
            EventError::MissingSource => Severity::Error,
            EventError::MissingUser => Severity::Error,
        }
    }

    /// The report of the error, as characters.
    pub open spec fn text(self) -> Seq<char> {
        match self {
            EventError::MissingInner => "SeabirdEvent missing an inner"@,
            EventError::MissingSource => "event missing source"@,
            EventError::MissingUser => "event missing user"@,
        }
    }

    /// The report of the error.
    pub fn message(&self) -> (report: String)
        ensures
            report@ == self.text(),
    {
        match self {
            EventError::MissingInner => "SeabirdEvent missing an inner".to_owned(),
            EventError::MissingSource => "event missing source".to_owned(),
            EventError::MissingUser => "event missing user".to_owned(),
        }
    }
}

/// Why the relay has ended. Every end of the relay is an error: it is meant
/// to run for as long as the process lives.
#[derive(Debug)]
pub enum RelayError {
    /// The stream of events has failed; the text is the backend's report.
    Stream(String),
    /// The queue of outgoing messages has lost its reading end.
    QueueClosed,
    /// The stream of events has ended.
    ReaderExitedEarly,
    /// The queue of outgoing messages has lost its writing end.
    WriterExitedEarly,
    /// The reader and the writer have both returned without an error.
    RunExitedEarly,
}

/// Why the relay has ended, as plain values.
pub enum RelayErrorView {
    Stream(Seq<char>),
    QueueClosed,
    ReaderExitedEarly,
    WriterExitedEarly,
    RunExitedEarly,
}

impl View for RelayError {
    type V = RelayErrorView;

    open spec fn view(&self) -> RelayErrorView {
        match *self {
            RelayError::Stream(report) => RelayErrorView::Stream(report@),
            RelayError::QueueClosed => RelayErrorView::QueueClosed,
            RelayError::ReaderExitedEarly => RelayErrorView::ReaderExitedEarly,
            RelayError::WriterExitedEarly => RelayErrorView::WriterExitedEarly,
            RelayError::RunExitedEarly => RelayErrorView::RunExitedEarly,
        }
    }
}

impl RelayErrorView {
    /// The report of the error, as characters.
    pub open spec fn text(self) -> Seq<char> {
        match self {
            RelayErrorView::Stream(report) => report,
            RelayErrorView::QueueClosed => "channel closed"@,
            RelayErrorView::ReaderExitedEarly => "run_reader exited early"@,
            RelayErrorView::WriterExitedEarly => "run_writer exited early"@,
            RelayErrorView::RunExitedEarly => "run exited early"@,
        }
    }
}

impl RelayError {
    /// The report of the error.
    pub fn message(&self) -> (report: String)
        ensures
            report@ == self@.text(),
    {
        match self {
            RelayError::Stream(report) => report.clone(),
            RelayError::QueueClosed => "channel closed".to_owned(),
            RelayError::ReaderExitedEarly => "run_reader exited early".to_owned(),
            RelayError::WriterExitedEarly => "run_writer exited early".to_owned(),
            RelayError::RunExitedEarly => "run exited early".to_owned(),
        }
    }
}

} // verus!
