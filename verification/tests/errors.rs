use seabird_proxy::error::{EventError, RelayError, Severity};

#[test]
fn event_errors_report_what_is_missing() {
    assert_eq!(EventError::MissingInner.message(), "SeabirdEvent missing an inner");
    assert_eq!(EventError::MissingSource.message(), "event missing source");
    assert_eq!(EventError::MissingUser.message(), "event missing user");
}

#[test]
fn an_event_without_payload_is_worth_a_warning() {
    assert_eq!(EventError::MissingInner.severity(), Severity::Warning);
    assert_eq!(EventError::MissingSource.severity(), Severity::Error);
    assert_eq!(EventError::MissingUser.severity(), Severity::Error);
}

#[test]
fn relay_errors_report_which_part_ended() {
    assert_eq!(RelayError::ReaderExitedEarly.message(), "run_reader exited early");
    assert_eq!(RelayError::WriterExitedEarly.message(), "run_writer exited early");
    assert_eq!(RelayError::RunExitedEarly.message(), "run exited early");
    assert_eq!(RelayError::QueueClosed.message(), "channel closed");
}

#[test]
fn stream_error_reports_what_the_backend_said() {
    assert_eq!(RelayError::Stream("connection reset".to_string()).message(), "connection reset");
    assert_eq!(RelayError::Stream(String::new()).message(), "");
}
