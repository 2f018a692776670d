//! What the reader hands to the writer: one message for one target channel.

use crate::tags::Tags;
use vstd::prelude::*;

verus! {

/// Number of outgoing messages that the queue between the reader and the
/// writer holds before the reader has to wait. The messages are small, and
/// one event may be relayed to several channels.
pub const QUEUE_CAPACITY: usize = 100;

/// A text for a channel, with the tags of the event that it relays.
#[derive(Debug)]
pub struct OutgoingRequest {
    pub channel_id: String,
    pub text: String,
    pub tags: Tags,
}

/// A text for a channel, as plain values.
pub struct OutgoingRequestView {
    pub channel_id: Seq<char>,
    pub text: Seq<char>,
    pub tags: Map<Seq<char>, Seq<char>>,
}

impl View for OutgoingRequest {
    type V = OutgoingRequestView;

    open spec fn view(&self) -> OutgoingRequestView {
        OutgoingRequestView { channel_id: self.channel_id@, text: self.text@, tags: self.tags@ }
    }
}

/// One call that the writer is to make on the backend: an action to perform
/// in a channel, or a message to send to it.
#[derive(Debug)]
pub enum OutgoingMessage {
    Action(OutgoingRequest),
    Message(OutgoingRequest),
}

/// One call that the writer is to make on the backend, as plain values.
pub enum OutgoingMessageView {
    Action(OutgoingRequestView),
    Message(OutgoingRequestView),
}

impl View for OutgoingMessage {
    type V = OutgoingMessageView;

    open spec fn view(&self) -> OutgoingMessageView {
        match *self {
            OutgoingMessage::Action(request) => OutgoingMessageView::Action(request@),
            OutgoingMessage::Message(request) => OutgoingMessageView::Message(request@),
        }
    }
}

impl OutgoingMessageView {
    /// The channel, the text and the tags of the call.
    pub open spec fn request(self) -> OutgoingRequestView {
        match self {
            OutgoingMessageView::Action(request) => request,
            OutgoingMessageView::Message(request) => request,
        }
    }
}

impl OutgoingMessage {
    /// The channel, the text and the tags of the call.
    pub fn request(&self) -> (request: &OutgoingRequest)
        ensures
            request@ == self@.request(),
    {
        match self {
            OutgoingMessage::Action(request) => request,
            OutgoingMessage::Message(request) => request,
        }
    }

    /// The channel that the call is for.
    pub fn channel_id(&self) -> (id: &String)
        ensures
            id@ == self@.request().channel_id,
    {
        &self.request().channel_id
    }

    /// The text that the call puts into the channel.
    pub fn text(&self) -> (text: &String)
        ensures
            text@ == self@.request().text,
    {
        &self.request().text
    }

    /// The tags that the call passes on.
    pub fn tags(&self) -> (tags: &Tags)
        ensures
            tags@ == self@.request().tags,
    {
        &self.request().tags
    }

    /// Tells whether the call performs an action, rather than send a message.
    pub fn is_action(&self) -> (action: bool)
        ensures
            action == (self@ is Action),
    {
        match self {
            OutgoingMessage::Action(_) => true,
            OutgoingMessage::Message(_) => false,
        }
    }
}

/// The messages of a list, as plain values.
pub open spec fn outgoing_view(messages: Seq<OutgoingMessage>) -> Seq<OutgoingMessageView> {
    messages.map_values(|message: OutgoingMessage| message@)
}

} // verus!
