//! The relay itself: its identity, its routing table, and what it makes of
//! an event.

use crate::error::EventError;
use crate::event::{
    optional_source, ChannelSource, ChannelSourceView, Event, EventInner, EventInnerView, EventView,
};
use crate::filter::{is_self_echo, opted_out, should_skip, skips};
use crate::format::{Line, LineView};
use crate::outgoing::{
    outgoing_view, OutgoingMessage, OutgoingMessageView, OutgoingRequest, OutgoingRequestView,
};
use crate::routing::{targets_of, targets_view, ChannelTarget, ChannelTargetView, RoutingTable};
use crate::tags::Tags;
use vstd::prelude::*;

verus! {

/// How to reach the backend, and the name under which this relay sends.
#[derive(Debug)]
pub struct ClientConfig {
    pub url: String,
    pub token: String,
    /// The identity of this relay: the sender that the backend reports for
    /// what the relay has sent.
    pub tag: String,
}

impl ClientConfig {
    pub fn new(url: String, token: String, tag: String) -> (config: Self)
        ensures
            config.url == url,
            config.token == token,
            config.tag == tag,
    {
        ClientConfig { url, token, tag }
    }
}

/// One message for each target, in the order of the targets: the line as it
/// reads with the target's prefix and suffix.
pub open spec fn formatted_fan_out(
    targets: Seq<ChannelTargetView>,
    tags: Map<Seq<char>, Seq<char>>,
    line: LineView,
) -> Seq<OutgoingMessageView> {
    Seq::new(
        targets.len(),
        |i: int|
            OutgoingMessageView::Message(
                OutgoingRequestView {
                    channel_id: targets[i].id,
                    text: line.render(targets[i].prefix(), targets[i].suffix()),
                    tags,
                },
            ),
    )
}

/// One message for each target, in the order of the targets, with the text
/// as it is.
pub open spec fn raw_message_fan_out(
    targets: Seq<ChannelTargetView>,
    tags: Map<Seq<char>, Seq<char>>,
    text: Seq<char>,
) -> Seq<OutgoingMessageView> {
    Seq::new(
        targets.len(),
        |i: int|
            OutgoingMessageView::Message(
                OutgoingRequestView { channel_id: targets[i].id, text, tags },
            ),
    )
}

/// One action for each target, in the order of the targets, with the text as
/// it is.
pub open spec fn raw_action_fan_out(
    targets: Seq<ChannelTargetView>,
    tags: Map<Seq<char>, Seq<char>>,
    text: Seq<char>,
) -> Seq<OutgoingMessageView> {
    Seq::new(
        targets.len(),
        |i: int|
            OutgoingMessageView::Action(
                OutgoingRequestView { channel_id: targets[i].id, text, tags },
            ),
    )
}

/// The channel and the display name of the user that a public event comes
/// from, or what is missing of them.
pub open spec fn speaker_of(source: Option<ChannelSourceView>) -> Result<
    (Seq<char>, Seq<char>),
    EventError,
> {
    match source {
        None => Err(EventError::MissingSource),
        Some(s) => match s.user {
            None => Err(EventError::MissingUser),
            Some(user) => Ok((s.channel_id, user.display_name)),
        },
    }
}

/// The relay, as plain values: the name under which it sends, and the
/// routing table in force.
pub struct ClientView {
    pub identity: Seq<char>,
    pub routes: Map<Seq<char>, Seq<ChannelTargetView>>,
}

impl ClientView {
    /// The targets of `source`, in their configured order; none where the
    /// table does not name the source.
    pub open spec fn targets(self, source: Seq<char>) -> Seq<ChannelTargetView> {
        targets_of(self.routes, source)
    }

    /// The relay with `routes` in place of its routing table.
    pub open spec fn reload(self, routes: Map<Seq<char>, Seq<ChannelTargetView>>) -> ClientView {
        ClientView { identity: self.identity, routes }
    }

    /// What a line spoken at `source` gives: the messages for the targets of
    /// its channel, or what is missing of the source.
    pub open spec fn relay_line(
        self,
        source: Option<ChannelSourceView>,
        tags: Map<Seq<char>, Seq<char>>,
        line: spec_fn(Seq<char>) -> LineView,
    ) -> Result<Seq<OutgoingMessageView>, EventError> {
        match speaker_of(source) {
            Err(missing) => Err(missing),
            Ok((channel_id, display_name)) => Ok(
                formatted_fan_out(self.targets(channel_id), tags, line(display_name)),
            ),
        }
    }

    /// What the relay makes of an event when its own name on the backend is
    /// `nick`: the outgoing messages in the order in which they are queued,
    /// or the reason why the event cannot be relayed.
    ///
    /// An event without a payload is an error. An event that the self-echo
    /// filter leaves out gives no message. A public event gives one message
    /// for each target of its channel, formatted for the target, and is an
    /// error where its source or its user is missing. What the backend reports
    /// as sent by another client is passed on as it is.
    pub open spec fn relay(self, nick: Seq<char>, event: EventView) -> Result<
        Seq<OutgoingMessageView>,
        EventError,
    > {
        match event.inner {
            None => Err(EventError::MissingInner),
            Some(inner) => if skips(event.tags, inner, self.identity) {
                Ok(Seq::empty())
            } else {
                match inner {
                    EventInnerView::Action { source, text } => self.relay_line(
                        source,
                        event.tags,
                        |display_name: Seq<char>| LineView::Action { display_name, text },
                    ),
                    EventInnerView::Message { source, text } => self.relay_line(
                        source,
                        event.tags,
                        |display_name: Seq<char>| LineView::Message { display_name, text },
                    ),
                    EventInnerView::Command { source, command, arg } => self.relay_line(
                        source,
                        event.tags,
                        |display_name: Seq<char>| LineView::Command { display_name, command, arg },
                    ),
                    EventInnerView::Mention { source, text } => self.relay_line(
                        source,
                        event.tags,
                        |display_name: Seq<char>| LineView::Mention { display_name, nick, text },
                    ),
                    EventInnerView::SendMessage { channel_id, text, .. } => Ok(
                        raw_message_fan_out(self.targets(channel_id), event.tags, text),
                    ),
                    EventInnerView::PerformAction { channel_id, text, .. } => Ok(
                        raw_action_fan_out(self.targets(channel_id), event.tags, text),
                    ),
                    _ => Ok(Seq::empty()),
                }
            },
        }
    }
}

/// What handling an event has given, as plain values.
pub open spec fn outcome_view(outcome: Result<Vec<OutgoingMessage>, EventError>) -> Result<
    Seq<OutgoingMessageView>,
    EventError,
> {
    match outcome {
        Ok(messages) => Ok(outgoing_view(messages@)),
        Err(missing) => Err(missing),
    }
}

/// The messages that handling an event has produced: none where it failed.
pub open spec fn produced(outcome: Result<Seq<OutgoingMessageView>, EventError>) -> Seq<
    OutgoingMessageView,
> {
    match outcome {
        Ok(messages) => messages,
        Err(_) => Seq::empty(),
    }
}

/// The channel and the display name of the user that a public event comes
/// from, or what is missing of them.
fn speaker(source: Option<ChannelSource>) -> (found: Result<(String, String), EventError>)
    ensures
        speaker_of(optional_source(source)) == match found {
            Ok((channel_id, display_name)) => Ok((channel_id@, display_name@)),
            Err(missing) => Err(missing),
        },
{
    match source {
        None => Err(EventError::MissingSource),
        Some(ChannelSource { channel_id, user }) => match user {
            None => Err(EventError::MissingUser),
            Some(user) => Ok((channel_id, user.display_name)),
        },
    }
}

/// The running relay: its configuration and the routing table in force.
#[derive(Debug)]
pub struct Client {
    config: ClientConfig,
    proxied_channels: RoutingTable,
}

impl View for Client {
    type V = ClientView;

    closed spec fn view(&self) -> ClientView {
        ClientView { identity: self.config.tag@, routes: self.proxied_channels@ }
    }
}

impl Client {
    /// The configuration that the relay was made with. The relay sends under
    /// the tag of its configuration.
    pub closed spec fn settings(&self) -> ClientConfig {
        self.config
    }

    /// A relay with this configuration and an empty routing table.
    pub fn new(config: ClientConfig) -> (client: Client)
        ensures
            client.settings() == config,
            client@ == (ClientView {
                identity: config.tag@,
                routes: Map::<Seq<char>, Seq<ChannelTargetView>>::empty(),
            }),
    {
        Client { config, proxied_channels: RoutingTable::new() }
    }

    /// The configuration that the relay was made with.
    pub fn config(&self) -> (config: &ClientConfig)
        ensures
            *config == self.settings(),
            config.tag@ == self@.identity,
    {
        &self.config
    }

    /// The routing table in force.
    pub fn proxied_channels(&self) -> (table: &RoutingTable)
        ensures
            table@ == self@.routes,
    {
        &self.proxied_channels
    }

    /// Puts `proxied_channels` in place of the routing table, as a whole.
    pub fn set_proxied_channels(&mut self, proxied_channels: RoutingTable)
        ensures
            final(self)@ == old(self)@.reload(proxied_channels@),
            final(self).settings() == old(self).settings(),
    {
        self.proxied_channels = proxied_channels;
    }

    /// The name of the relay on the backend, as far as it is known: a fixed
    /// one.
    pub fn get_current_nick(&self) -> (nick: String)
        ensures
            nick@ == "seabird"@,
    {
        "seabird".to_owned()
    }

    /// The messages that relay `line`, spoken in `source`, to the targets of
    /// that channel: one for each target, in the order of the targets.
    pub fn send_msg(&self, source: &str, tags: &Tags, line: &Line) -> (queued: Vec<OutgoingMessage>)
        ensures
            outgoing_view(queued@) == formatted_fan_out(self@.targets(source@), tags@, line@),
    {
        let mut queued: Vec<OutgoingMessage> = Vec::new();
        match self.proxied_channels.get(source) {
            Some(channels) => {
                let ghost expected = formatted_fan_out(targets_view(channels@), tags@, line@);
                let mut i: usize = 0;
                while i < channels.len()
                    invariant
                        i <= channels@.len(),
                        queued@.len() == i,
                        expected == formatted_fan_out(targets_view(channels@), tags@, line@),
                        forall|j: int| 0 <= j < i ==> (#[trigger] queued@[j])@ == expected[j],
                    decreases channels@.len() - i,
                {
                    let channel: &ChannelTarget = &channels[i];
                    let text = line.render(channel.prefix(), channel.suffix());
                    queued.push(
                        OutgoingMessage::Message(
                            OutgoingRequest {
                                channel_id: channel.id().clone(),
                                text,
                                tags: tags.clone(),
                            },
                        ),
                    );
                    i += 1;
                }
                assert(outgoing_view(queued@) =~= expected);
            },
            None => {
                assert(outgoing_view(queued@) =~= formatted_fan_out(
                    self@.targets(source@),
                    tags@,
                    line@,
                ));
            },
        }
        queued
    }

    /// The messages that pass `text`, sent to `source` by another client of
    /// the backend, on to the targets of that channel as it is.
    pub fn send_raw_msg(&self, source: &str, tags: &Tags, text: &str) -> (queued: Vec<
        OutgoingMessage,
    >)
        ensures
            outgoing_view(queued@) == raw_message_fan_out(self@.targets(source@), tags@, text@),
    {
        let mut queued: Vec<OutgoingMessage> = Vec::new();
        match self.proxied_channels.get(source) {
            Some(channels) => {
                let ghost expected = raw_message_fan_out(targets_view(channels@), tags@, text@);
                let mut i: usize = 0;
                while i < channels.len()
                    invariant
                        i <= channels@.len(),
                        queued@.len() == i,
                        expected == raw_message_fan_out(targets_view(channels@), tags@, text@),
                        forall|j: int| 0 <= j < i ==> (#[trigger] queued@[j])@ == expected[j],
                    decreases channels@.len() - i,
                {
                    let channel: &ChannelTarget = &channels[i];
                    queued.push(
                        OutgoingMessage::Message(
                            OutgoingRequest {
                                channel_id: channel.id().clone(),
                                text: text.to_owned(),
                                tags: tags.clone(),
                            },
                        ),
                    );
                    i += 1;
                }
                assert(outgoing_view(queued@) =~= expected);
            },
            None => {
                assert(outgoing_view(queued@) =~= raw_message_fan_out(
                    self@.targets(source@),
                    tags@,
                    text@,
                ));
            },
        }
        queued
    }

    /// The actions that pass `text`, performed in `source` by another client
    /// of the backend, on to the targets of that channel as it is.
    pub fn perform_raw_action(&self, source: &str, tags: &Tags, text: &str) -> (queued: Vec<
        OutgoingMessage,
    >)
        ensures
            outgoing_view(queued@) == raw_action_fan_out(self@.targets(source@), tags@, text@),
    {
        let mut queued: Vec<OutgoingMessage> = Vec::new();
        match self.proxied_channels.get(source) {
            Some(channels) => {
                let ghost expected = raw_action_fan_out(targets_view(channels@), tags@, text@);
                let mut i: usize = 0;
                while i < channels.len()
                    invariant
                        i <= channels@.len(),
                        queued@.len() == i,
                        expected == raw_action_fan_out(targets_view(channels@), tags@, text@),
                        forall|j: int| 0 <= j < i ==> (#[trigger] queued@[j])@ == expected[j],
                    decreases channels@.len() - i,
                {
                    let channel: &ChannelTarget = &channels[i];
                    queued.push(
                        OutgoingMessage::Action(
                            OutgoingRequest {
                                channel_id: channel.id().clone(),
                                text: text.to_owned(),
                                tags: tags.clone(),
                            },
                        ),
                    );
                    i += 1;
                }
                assert(outgoing_view(queued@) =~= expected);
            },
            None => {
                assert(outgoing_view(queued@) =~= raw_action_fan_out(
                    self@.targets(source@),
                    tags@,
                    text@,
                ));
            },
        }
        queued
    }

    /// What the relay makes of one event of the stream, when its own name on
    /// the backend is `current_nick`: the messages to queue, in their order,
    /// or the reason why the event cannot be relayed.
    ///
    /// Nothing is produced for an event that asks not to be relayed, for one
    /// that reports what this relay has sent itself, and for a private one.
    pub fn handle_event(&self, event: Event, current_nick: &str) -> (outcome: Result<
        Vec<OutgoingMessage>,
        EventError,
    >)
        ensures
            outcome_view(outcome) == self@.relay(current_nick@, event@),
            opted_out(event@.tags) ==> produced(outcome_view(outcome)).len() == 0,
            event@.inner matches Some(inner) && is_self_echo(inner, self@.identity) ==> produced(
                outcome_view(outcome),
            ).len() == 0,
            event@.inner matches Some(inner) && inner.is_private() ==> produced(
                outcome_view(outcome),
            ).len() == 0,
    {
        let Event { inner, tags } = event;
        let inner = match inner {
            Some(inner) => inner,
            None => {
                return Err(EventError::MissingInner);
            },
        };
        if should_skip(&tags, &inner, &self.config.tag) {
            let nothing: Vec<OutgoingMessage> = Vec::new();
            assert(outgoing_view(nothing@) =~= Seq::<OutgoingMessageView>::empty());
            return Ok(nothing);
        }
        match inner {
            EventInner::Action { source, text } => {
                match speaker(source) {
                    Err(missing) => Err(missing),
                    Ok((channel_id, display_name)) => {
                        let line = Line::Action { display_name, text };
                        Ok(self.send_msg(channel_id.as_str(), &tags, &line))
                    },
                }
            },
            EventInner::Message { source, text } => {
                match speaker(source) {
                    Err(missing) => Err(missing),
                    Ok((channel_id, display_name)) => {
                        let line = Line::Message { display_name, text };
                        Ok(self.send_msg(channel_id.as_str(), &tags, &line))
                    },
                }
            },
            EventInner::Command { source, command, arg } => {
                match speaker(source) {
                    Err(missing) => Err(missing),
                    Ok((channel_id, display_name)) => {
                        let line = Line::Command { display_name, command, arg };
                        Ok(self.send_msg(channel_id.as_str(), &tags, &line))
                    },
                }
            },
            EventInner::Mention { source, text } => {
                match speaker(source) {
                    Err(missing) => Err(missing),
                    Ok((channel_id, display_name)) => {
                        let line = Line::Mention {
                            display_name,
                            nick: current_nick.to_owned(),
                            text,
                        };
                        Ok(self.send_msg(channel_id.as_str(), &tags, &line))
                    },
                }
            },
            EventInner::SendMessage { sender: _, channel_id, text } => Ok(
                self.send_raw_msg(channel_id.as_str(), &tags, text.as_str()),
            ),
            EventInner::PerformAction { sender: _, channel_id, text } => Ok(
                self.perform_raw_action(channel_id.as_str(), &tags, text.as_str()),
            ),
            _ => {
                let nothing: Vec<OutgoingMessage> = Vec::new();
                assert(outgoing_view(nothing@) =~= Seq::<OutgoingMessageView>::empty());
                Ok(nothing)
            },
        }
    }
}

} // verus!
