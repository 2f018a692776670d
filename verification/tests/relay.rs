use seabird_proxy::client::{Client, ClientConfig};
use seabird_proxy::error::EventError;
use seabird_proxy::event::{ChannelSource, Event, EventInner, User};
use seabird_proxy::format::Line;
use seabird_proxy::outgoing::OutgoingMessage;
use seabird_proxy::routing::{ChannelTarget, RoutingTable};
use seabird_proxy::tags::Tags;

fn target(id: &str, prefix: Option<&str>, suffix: Option<&str>) -> ChannelTarget {
    ChannelTarget::new(id.to_string(), prefix.map(|p| p.to_string()), suffix.map(|s| s.to_string()))
}

fn relay_with(routes: Vec<(&str, ChannelTarget)>) -> Client {
    let mut table = RoutingTable::new();
    for (source, target) in routes {
        table.add_target(source.to_string(), target);
    }
    let mut client = Client::new(ClientConfig::new(
        "http://localhost:11235".to_string(),
        "token".to_string(),
        "proxy-1".to_string(),
    ));
    client.set_proxied_channels(table);
    client
}

fn one_route() -> Client {
    relay_with(vec![("#a", target("#b", Some(""), Some("[x]")))])
}

fn two_targets() -> Client {
    relay_with(vec![
        ("#a", target("#b", None, Some("[x]"))),
        ("#a", target("#c", Some("<"), Some(">"))),
    ])
}

fn from(channel: &str, name: &str) -> Option<ChannelSource> {
    Some(ChannelSource {
        channel_id: channel.to_string(),
        user: Some(User { id: "u1".to_string(), display_name: name.to_string() }),
    })
}

fn event(inner: EventInner) -> Event {
    Event { inner: Some(inner), tags: Tags::new() }
}

fn tagged(inner: EventInner, pairs: &[(&str, &str)]) -> Event {
    let mut tags = Tags::new();
    for (name, value) in pairs {
        tags.insert(name.to_string(), value.to_string());
    }
    Event { inner: Some(inner), tags }
}

fn message(channel: &str, name: &str, text: &str) -> EventInner {
    EventInner::Message { source: from(channel, name), text: text.to_string() }
}

fn command(channel: &str, name: &str, command: &str, arg: &str) -> EventInner {
    EventInner::Command {
        source: from(channel, name),
        command: command.to_string(),
        arg: arg.to_string(),
    }
}

fn shape(messages: &Vec<OutgoingMessage>) -> Vec<(bool, String, String)> {
    messages
        .iter()
        .map(|m| (m.is_action(), m.channel_id().clone(), m.text().clone()))
        .collect()
}

fn said(channel: &str, text: &str) -> (bool, String, String) {
    (false, channel.to_string(), text.to_string())
}

fn did(channel: &str, text: &str) -> (bool, String, String) {
    (true, channel.to_string(), text.to_string())
}

#[test]
fn client_config_keeps_what_it_was_made_with() {
    let config = ClientConfig::new("url".to_string(), "secret".to_string(), "tag".to_string());
    assert_eq!(config.url, "url");
    assert_eq!(config.token, "secret");
    assert_eq!(config.tag, "tag");
}

#[test]
fn new_client_has_an_empty_table() {
    let client = Client::new(ClientConfig::new(
        "url".to_string(),
        "secret".to_string(),
        "tag".to_string(),
    ));
    assert_eq!(client.config().tag, "tag");
    assert_eq!(client.proxied_channels().len(), 0);
    let out = client.handle_event(event(message("#a", "alice", "hi")), "seabird").unwrap();
    assert!(out.is_empty());
}

#[test]
fn current_nick_is_the_fixed_one() {
    assert_eq!(one_route().get_current_nick(), "seabird");
}

#[test]
fn message_is_relayed_with_the_suffix_of_its_target() {
    let out = one_route().handle_event(event(message("#a", "alice", "hi")), "seabird").unwrap();
    assert_eq!(shape(&out), vec![said("#b", "alice[x]: hi")]);
}

#[test]
fn command_without_argument_is_relayed_with_bang() {
    let out = one_route().handle_event(event(command("#a", "alice", "ping", "")), "seabird").unwrap();
    assert_eq!(shape(&out), vec![said("#b", "alice[x]: !ping")]);
}

#[test]
fn command_with_argument_is_relayed_with_its_argument() {
    let out =
        one_route().handle_event(event(command("#a", "alice", "ping", "1 2")), "seabird").unwrap();
    assert_eq!(shape(&out), vec![said("#b", "alice[x]: !ping 1 2")]);
}

#[test]
fn action_is_relayed_as_a_message_with_a_star() {
    let inner = EventInner::Action { source: from("#a", "alice"), text: "waves".to_string() };
    let out = one_route().handle_event(event(inner), "seabird").unwrap();
    assert_eq!(shape(&out), vec![said("#b", "* alice[x] waves")]);
}

#[test]
fn mention_names_the_relay_by_the_nick_handed_in() {
    let inner = EventInner::Mention { source: from("#a", "alice"), text: "hello".to_string() };
    let out = one_route().handle_event(event(inner), "birdie").unwrap();
    assert_eq!(shape(&out), vec![said("#b", "alice[x]: birdie: hello")]);
}

#[test]
fn each_target_gets_its_own_decoration_in_table_order() {
    let out = two_targets().handle_event(event(message("#a", "alice", "hi")), "seabird").unwrap();
    assert_eq!(shape(&out), vec![said("#b", "alice[x]: hi"), said("#c", "<alice>: hi")]);
}

#[test]
fn target_order_is_the_order_of_the_table_not_of_the_names() {
    let client = relay_with(vec![
        ("#a", target("#z", None, None)),
        ("#a", target("#b", None, None)),
        ("#a", target("#m", None, None)),
    ]);
    let out = client.handle_event(event(message("#a", "alice", "hi")), "seabird").unwrap();
    assert_eq!(
        shape(&out),
        vec![said("#z", "alice: hi"), said("#b", "alice: hi"), said("#m", "alice: hi")]
    );
}

#[test]
fn unknown_source_gives_nothing() {
    let out = one_route().handle_event(event(message("#b", "alice", "hi")), "seabird").unwrap();
    assert!(out.is_empty());
}

#[test]
fn tags_of_the_event_go_with_every_message() {
    let ev = tagged(message("#a", "alice", "hi"), &[("k", "v"), ("proxy/skip", "0")]);
    let out = two_targets().handle_event(ev, "seabird").unwrap();
    assert_eq!(out.len(), 2);
    for m in &out {
        assert_eq!(m.tags().len(), 2);
        assert_eq!(m.tags().get("k"), Some(&"v".to_string()));
        assert_eq!(m.tags().get("proxy/skip"), Some(&"0".to_string()));
        assert_eq!(m.request().channel_id, *m.channel_id());
        assert_eq!(m.request().text, *m.text());
    }
}

#[test]
fn opted_out_event_gives_nothing() {
    let ev = tagged(message("#a", "alice", "hi"), &[("proxy/skip", "1")]);
    let out = two_targets().handle_event(ev, "seabird").unwrap();
    assert!(out.is_empty());
}

#[test]
fn opted_out_event_gives_nothing_even_where_parts_are_missing() {
    let inner = EventInner::Message { source: None, text: "hi".to_string() };
    let out = two_targets().handle_event(tagged(inner, &[("proxy/skip", "1")]), "seabird").unwrap();
    assert!(out.is_empty());
}

#[test]
fn own_send_message_gives_nothing() {
    let inner = EventInner::SendMessage {
        sender: "proxy-1".to_string(),
        channel_id: "#a".to_string(),
        text: "alice[x]: hi".to_string(),
    };
    let out = two_targets().handle_event(event(inner), "seabird").unwrap();
    assert!(out.is_empty());
}

#[test]
fn own_perform_action_gives_nothing() {
    let inner = EventInner::PerformAction {
        sender: "proxy-1".to_string(),
        channel_id: "#a".to_string(),
        text: "waves".to_string(),
    };
    let out = two_targets().handle_event(event(inner), "seabird").unwrap();
    assert!(out.is_empty());
}

#[test]
fn send_message_of_another_sender_is_passed_on_as_it_is() {
    let inner = EventInner::SendMessage {
        sender: "proxy-2".to_string(),
        channel_id: "#a".to_string(),
        text: "bob: hi".to_string(),
    };
    let out = two_targets().handle_event(event(inner), "seabird").unwrap();
    assert_eq!(shape(&out), vec![said("#b", "bob: hi"), said("#c", "bob: hi")]);
}

#[test]
fn perform_action_of_another_sender_is_passed_on_as_an_action() {
    let inner = EventInner::PerformAction {
        sender: "proxy-2".to_string(),
        channel_id: "#a".to_string(),
        text: "waves".to_string(),
    };
    let out = two_targets().handle_event(event(inner), "seabird").unwrap();
    assert_eq!(shape(&out), vec![did("#b", "waves"), did("#c", "waves")]);
}

#[test]
fn private_events_give_nothing() {
    let client = two_targets();
    for inner in [
        EventInner::PrivateMessage,
        EventInner::PrivateAction,
        EventInner::SendPrivateMessage,
        EventInner::PerformPrivateAction,
    ] {
        assert!(client.handle_event(event(inner), "seabird").unwrap().is_empty());
    }
}

#[test]
fn event_without_payload_is_an_error() {
    let ev = Event { inner: None, tags: Tags::new() };
    assert_eq!(one_route().handle_event(ev, "seabird").unwrap_err(), EventError::MissingInner);
}

#[test]
fn event_without_payload_is_an_error_even_where_it_opts_out() {
    let mut tags = Tags::new();
    tags.insert("proxy/skip".to_string(), "1".to_string());
    let ev = Event { inner: None, tags };
    assert_eq!(one_route().handle_event(ev, "seabird").unwrap_err(), EventError::MissingInner);
}

#[test]
fn event_without_source_is_an_error() {
    let client = one_route();
    let cases = vec![
        EventInner::Action { source: None, text: "t".to_string() },
        EventInner::Message { source: None, text: "t".to_string() },
        EventInner::Command { source: None, command: "c".to_string(), arg: String::new() },
        EventInner::Mention { source: None, text: "t".to_string() },
    ];
    for inner in cases {
        assert_eq!(
            client.handle_event(event(inner), "seabird").unwrap_err(),
            EventError::MissingSource
        );
    }
}

#[test]
fn event_without_user_is_an_error_even_for_an_unknown_channel() {
    let client = one_route();
    for channel in ["#a", "#nowhere"] {
        let source = Some(ChannelSource { channel_id: channel.to_string(), user: None });
        let inner = EventInner::Message { source, text: "t".to_string() };
        assert_eq!(
            client.handle_event(event(inner), "seabird").unwrap_err(),
            EventError::MissingUser
        );
    }
}

#[test]
fn send_msg_formats_the_line_for_each_target() {
    let line = Line::Message { display_name: "alice".to_string(), text: "hi".to_string() };
    let out = two_targets().send_msg("#a", &Tags::new(), &line);
    assert_eq!(shape(&out), vec![said("#b", "alice[x]: hi"), said("#c", "<alice>: hi")]);
    assert!(two_targets().send_msg("#c", &Tags::new(), &line).is_empty());
}

#[test]
fn send_raw_msg_leaves_the_text_alone() {
    let out = two_targets().send_raw_msg("#a", &Tags::new(), "as it is");
    assert_eq!(shape(&out), vec![said("#b", "as it is"), said("#c", "as it is")]);
    assert!(two_targets().send_raw_msg("#b", &Tags::new(), "as it is").is_empty());
}

#[test]
fn perform_raw_action_leaves_the_text_alone() {
    let out = two_targets().perform_raw_action("#a", &Tags::new(), "waves");
    assert_eq!(shape(&out), vec![did("#b", "waves"), did("#c", "waves")]);
    assert!(two_targets().perform_raw_action("#b", &Tags::new(), "waves").is_empty());
}

#[test]
fn reload_replaces_the_table_as_a_whole() {
    let mut client = two_targets();
    let mut table = RoutingTable::new();
    table.add_target("#x".to_string(), target("#y", None, None));
    client.set_proxied_channels(table);
    assert!(client.handle_event(event(message("#a", "alice", "hi")), "seabird").unwrap().is_empty());
    let out = client.handle_event(event(message("#x", "alice", "hi")), "seabird").unwrap();
    assert_eq!(shape(&out), vec![said("#y", "alice: hi")]);
    assert_eq!(client.proxied_channels().len(), 1);
    assert_eq!(client.config().tag, "proxy-1");
}

#[test]
fn loading_the_same_table_twice_changes_nothing() {
    let build = || {
        let mut table = RoutingTable::new();
        table.add_target("#a".to_string(), target("#b", None, Some("[x]")));
        table.add_target("#a".to_string(), target("#c", None, None));
        table
    };
    let mut once = one_route();
    once.set_proxied_channels(build());
    let mut twice = one_route();
    twice.set_proxied_channels(build());
    twice.set_proxied_channels(build());
    for text in ["hi", ""] {
        let a = once.handle_event(event(message("#a", "alice", text)), "seabird").unwrap();
        let b = twice.handle_event(event(message("#a", "alice", text)), "seabird").unwrap();
        assert_eq!(shape(&a), shape(&b));
        assert_eq!(a.len(), 2);
    }
}

#[test]
fn a_channel_that_routes_to_itself_gets_its_own_messages() {
    let client = relay_with(vec![("#a", target("#a", None, Some("[echo]")))]);
    let out = client.handle_event(event(message("#a", "alice", "hi")), "seabird").unwrap();
    assert_eq!(shape(&out), vec![said("#a", "alice[echo]: hi")]);
}
