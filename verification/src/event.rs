//! The events that arrive on the stream of the chat backend, reduced to what
//! the relay reads of them.

use crate::tags::Tags;
use vstd::prelude::*;

verus! {

/// The author of a public event.
#[derive(Debug)]
pub struct User {
    pub id: String,
    pub display_name: String,
}

/// The author of a public event, as plain values.
pub struct UserView {
    pub id: Seq<char>,
    pub display_name: Seq<char>,
}

impl View for User {
    type V = UserView;

    open spec fn view(&self) -> UserView {
        UserView { id: self.id@, display_name: self.display_name@ }
    }
}

/// Where a public event comes from: a channel, and the user who wrote there.
#[derive(Debug)]
pub struct ChannelSource {
    pub channel_id: String,
    pub user: Option<User>,
}

/// Where a public event comes from, as plain values.
pub struct ChannelSourceView {
    pub channel_id: Seq<char>,
    pub user: Option<UserView>,
}

/// What an optional user holds, as plain values.
pub open spec fn optional_user(user: Option<User>) -> Option<UserView> {
    match user {
        Some(u) => Some(u@),
        None => None,
    }
}

impl View for ChannelSource {
    type V = ChannelSourceView;

    open spec fn view(&self) -> ChannelSourceView {
        ChannelSourceView { channel_id: self.channel_id@, user: optional_user(self.user) }
    }
}

/// What an optional source holds, as plain values.
pub open spec fn optional_source(source: Option<ChannelSource>) -> Option<ChannelSourceView> {
    match source {
        Some(s) => Some(s@),
        None => None,
    }
}

/// What happened, by kind.
///
/// `Action`, `Message`, `Command` and `Mention` are written by users in a
/// channel. `SendMessage` and `PerformAction` tell that some client of the
/// backend, named by `sender`, has put text into a channel. The four private
/// kinds concern a conversation with a single user; the relay reads nothing
/// of them.
#[derive(Debug)]
pub enum EventInner {
    Action { source: Option<ChannelSource>, text: String },
    Message { source: Option<ChannelSource>, text: String },
    Command { source: Option<ChannelSource>, command: String, arg: String },
    Mention { source: Option<ChannelSource>, text: String },
    SendMessage { sender: String, channel_id: String, text: String },
    PerformAction { sender: String, channel_id: String, text: String },
    PrivateMessage,
    PrivateAction,
    SendPrivateMessage,
    PerformPrivateAction,
}

/// What happened, as plain values.
pub enum EventInnerView {
    Action { source: Option<ChannelSourceView>, text: Seq<char> },
    Message { source: Option<ChannelSourceView>, text: Seq<char> },
    Command { source: Option<ChannelSourceView>, command: Seq<char>, arg: Seq<char> },
    Mention { source: Option<ChannelSourceView>, text: Seq<char> },
    SendMessage { sender: Seq<char>, channel_id: Seq<char>, text: Seq<char> },
    PerformAction { sender: Seq<char>, channel_id: Seq<char>, text: Seq<char> },
    PrivateMessage,
    PrivateAction,
    SendPrivateMessage,
    PerformPrivateAction,
}

impl View for EventInner {
    type V = EventInnerView;

    open spec fn view(&self) -> EventInnerView {
        match *self {
            EventInner::Action { source, text } => EventInnerView::Action {
                source: optional_source(source),
                text: text@,
            },
            EventInner::Message { source, text } => EventInnerView::Message {
                source: optional_source(source),
                text: text@,
            },
            EventInner::Command { source, command, arg } => EventInnerView::Command {
                source: optional_source(source),
                command: command@,
                arg: arg@,
            },
            EventInner::Mention { source, text } => EventInnerView::Mention {
                source: optional_source(source),
                text: text@,
            },
            EventInner::SendMessage { sender, channel_id, text } => EventInnerView::SendMessage {
                sender: sender@,
                channel_id: channel_id@,
                text: text@,
            },
            EventInner::PerformAction { sender, channel_id, text } => EventInnerView::PerformAction {
                sender: sender@,
                channel_id: channel_id@,
                text: text@,
            },
            EventInner::PrivateMessage => EventInnerView::PrivateMessage,
            EventInner::PrivateAction => EventInnerView::PrivateAction,
            EventInner::SendPrivateMessage => EventInnerView::SendPrivateMessage,
            EventInner::PerformPrivateAction => EventInnerView::PerformPrivateAction,
        }
    }
}

impl EventInnerView {
    /// The event concerns a private conversation.
    pub open spec fn is_private(self) -> bool {
        self is PrivateMessage || self is PrivateAction || self is SendPrivateMessage
            || self is PerformPrivateAction
    }

    /// The channel in which the event happened, where it names one.
    pub open spec fn channel_id(self) -> Option<Seq<char>> {
        match self {
            EventInnerView::Action { source: Some(s), .. } => Some(s.channel_id),
            EventInnerView::Message { source: Some(s), .. } => Some(s.channel_id),
            EventInnerView::Command { source: Some(s), .. } => Some(s.channel_id),
            EventInnerView::Mention { source: Some(s), .. } => Some(s.channel_id),
            EventInnerView::SendMessage { channel_id, .. } => Some(channel_id),
            EventInnerView::PerformAction { channel_id, .. } => Some(channel_id),
            _ => None,
        }
    }

    /// The client that put the text into the channel, for the two kinds of
    /// event that the backend itself writes.
    pub open spec fn sender(self) -> Option<Seq<char>> {
        match self {
            EventInnerView::SendMessage { sender, .. } => Some(sender),
            EventInnerView::PerformAction { sender, .. } => Some(sender),
            _ => None,
        }
    }
}

/// What an optional payload holds, as plain values.
pub open spec fn optional_inner(inner: Option<EventInner>) -> Option<EventInnerView> {
    match inner {
        Some(i) => Some(i@),
        None => None,
    }
}

/// One occurrence on the stream: what happened, if the backend said so, and
/// the tags that came with it.
#[derive(Debug)]
pub struct Event {
    pub inner: Option<EventInner>,
    pub tags: Tags,
}

/// One occurrence on the stream, as plain values.
pub struct EventView {
    pub inner: Option<EventInnerView>,
    pub tags: Map<Seq<char>, Seq<char>>,
}

impl View for Event {
    type V = EventView;

    open spec fn view(&self) -> EventView {
        EventView { inner: optional_inner(self.inner), tags: self.tags@ }
    }
}

} // verus!
