use seabird_proxy::client::{Client, ClientConfig};
use seabird_proxy::error::{EventError, RelayError};
use seabird_proxy::event::{ChannelSource, Event, EventInner, User};
use seabird_proxy::outgoing::QUEUE_CAPACITY;
use seabird_proxy::reader::{ReaderEvent, ReaderStep};
use seabird_proxy::routing::{ChannelTarget, RoutingTable};
use seabird_proxy::tags::Tags;

fn relay() -> Client {
    let mut table = RoutingTable::new();
    table.add_target("#a".to_string(), ChannelTarget::new("#b".to_string(), None, None));
    table.add_target("#a".to_string(), ChannelTarget::new("#c".to_string(), None, None));
    let mut client = Client::new(ClientConfig::new(
        "url".to_string(),
        "token".to_string(),
        "proxy-1".to_string(),
    ));
    client.set_proxied_channels(table);
    client
}

fn message(channel: &str) -> Event {
    Event {
        inner: Some(EventInner::Message {
            source: Some(ChannelSource {
                channel_id: channel.to_string(),
                user: Some(User { id: "u".to_string(), display_name: "alice".to_string() }),
            }),
            text: "hi".to_string(),
        }),
        tags: Tags::new(),
    }
}

#[test]
fn queue_holds_one_hundred_messages() {
    assert_eq!(QUEUE_CAPACITY, 100);
}

#[test]
fn streamed_event_is_enqueued_for_its_targets() {
    match relay().reader_step(ReaderEvent::Streamed(message("#a")), "seabird") {
        ReaderStep::Enqueue(messages) => {
            assert_eq!(messages.len(), 2);
            assert_eq!(messages[0].channel_id(), "#b");
            assert_eq!(messages[1].channel_id(), "#c");
            assert_eq!(messages[0].text(), "alice: hi");
        }
        other => panic!("unexpected step {:?}", other),
    }
}

#[test]
fn streamed_event_without_targets_enqueues_nothing() {
    match relay().reader_step(ReaderEvent::Streamed(message("#zzz")), "seabird") {
        ReaderStep::Enqueue(messages) => assert!(messages.is_empty()),
        other => panic!("unexpected step {:?}", other),
    }
}

#[test]
fn malformed_event_is_reported_and_passed_over() {
    let empty = Event { inner: None, tags: Tags::new() };
    assert!(matches!(
        relay().reader_step(ReaderEvent::Streamed(empty), "seabird"),
        ReaderStep::Report(EventError::MissingInner)
    ));
    let no_source = Event {
        inner: Some(EventInner::Action { source: None, text: "x".to_string() }),
        tags: Tags::new(),
    };
    assert!(matches!(
        relay().reader_step(ReaderEvent::Streamed(no_source), "seabird"),
        ReaderStep::Report(EventError::MissingSource)
    ));
}

#[test]
fn failed_stream_ends_the_relay() {
    match relay().reader_step(ReaderEvent::StreamFailed("status: Unavailable".to_string()), "seabird")
    {
        ReaderStep::Stop(RelayError::Stream(report)) => assert_eq!(report, "status: Unavailable"),
        other => panic!("unexpected step {:?}", other),
    }
}

#[test]
fn ended_stream_ends_the_relay() {
    assert!(matches!(
        relay().reader_step(ReaderEvent::StreamEnded, "seabird"),
        ReaderStep::Stop(RelayError::ReaderExitedEarly)
    ));
}

#[test]
fn after_queueing_the_reader_reads_on() {
    assert!(matches!(relay().reader_step(ReaderEvent::Queued, "seabird"), ReaderStep::Read));
}

#[test]
fn closed_queue_ends_the_relay() {
    assert!(matches!(
        relay().reader_step(ReaderEvent::QueueClosed, "seabird"),
        ReaderStep::Stop(RelayError::QueueClosed)
    ));
}
