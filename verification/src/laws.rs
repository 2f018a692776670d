//! What holds of the relay as a whole, proved from what its parts promise.

use crate::client::{produced, ClientView};
use crate::event::EventView;
use crate::filter::{is_self_echo, opted_out, skips};
use crate::outgoing::OutgoingMessageView;
use crate::reader::ReaderEventView;
use crate::routing::{targets_of, ChannelTargetView};
use crate::writer::calls_made;
use vstd::prelude::*;

verus! {

/// The writer makes one call for every message that the queue yields, in the
/// order of the queue, whatever the backend answers: a call that fails keeps
/// no later call from being made.
pub proof fn lemma_failed_call_stops_no_later_call(
    pending: Seq<OutgoingMessageView>,
    outcomes: Seq<Result<(), Seq<char>>>,
)
    requires
        outcomes.len() == pending.len(),
    ensures
        calls_made(pending, outcomes) == pending,
        forall|i: int, j: int|
            0 <= i < j < pending.len() && outcomes[i] is Err ==> calls_made(pending, outcomes)[j]
                == pending[j],
    decreases pending.len(),
{
    if pending.len() > 0 {
        lemma_failed_call_stops_no_later_call(pending.drop_first(), outcomes.drop_first());
        assert(seq![pending.first()] + pending.drop_first() =~= pending);
    }
    assert(calls_made(pending, outcomes) =~= pending);
}

/// The messages that an event gives follow the routing table: the message
/// at each position is for the target at that position among the targets of
/// the event's channel, and an event that is not left out gives a message
/// for every one of them.
pub proof fn lemma_messages_follow_target_order(client: ClientView, nick: Seq<char>, event: EventView)
    requires
        client.relay(nick, event) is Ok,
    ensures
        event.inner is Some,
        ({
            let inner = event.inner->Some_0;
            let messages = client.relay(nick, event)->Ok_0;
            let targets = client.targets(inner.channel_id()->Some_0);
            &&& !skips(event.tags, inner, client.identity) ==> inner.channel_id() is Some
                && messages.len() == targets.len()
            &&& forall|i: int|
                0 <= i < messages.len() ==> inner.channel_id() is Some && i < targets.len() && (
                #[trigger] messages[i]).request().channel_id == targets[i].id
        }),
{
}

/// The calls for one event reach the backend in the order in which the
/// routing table lists the targets of its channel: the call at each position
/// is for the target at that position, so that the call for an earlier
/// target is made before the call for a later one, whatever the backend
/// answers.
pub proof fn lemma_calls_follow_target_order(
    client: ClientView,
    nick: Seq<char>,
    event: EventView,
    outcomes: Seq<Result<(), Seq<char>>>,
)
    requires
        client.relay(nick, event) matches Ok(messages) && outcomes.len() == messages.len(),
    ensures
        event.inner is Some,
        ({
            let inner = event.inner->Some_0;
            let calls = calls_made(client.relay(nick, event)->Ok_0, outcomes);
            let targets = client.targets(inner.channel_id()->Some_0);
            &&& !skips(event.tags, inner, client.identity) ==> inner.channel_id() is Some
                && calls.len() == targets.len()
            &&& forall|i: int|
                0 <= i < calls.len() ==> inner.channel_id() is Some && i < targets.len() && (
                #[trigger] calls[i]).request().channel_id == targets[i].id
        }),
{
    lemma_messages_follow_target_order(client, nick, event);
    lemma_failed_call_stops_no_later_call(client.relay(nick, event)->Ok_0, outcomes);
}

/// A reload takes effect as a whole. After it, the targets of every source
/// are those of the new table, and what the relay makes of an event does not
/// depend on the table that was in force before.
pub proof fn lemma_reload_replaces_the_whole_table(
    before: ClientView,
    other: ClientView,
    table: Map<Seq<char>, Seq<ChannelTargetView>>,
    nick: Seq<char>,
    event: ReaderEventView,
)
    requires
        before.identity == other.identity,
    ensures
        forall|source: Seq<char>| #[trigger]
            before.reload(table).targets(source) == targets_of(table, source),
        before.reload(table) == other.reload(table),
        before.reload(table).read(nick, event) == other.reload(table).read(nick, event),
{
}

/// What reaches the relay while it runs: a new routing table, or something
/// for the reader.
pub enum Input {
    Reload(Map<Seq<char>, Seq<ChannelTargetView>>),
    Reader(ReaderEventView),
}

/// The relay after `inputs` have reached it, in this order. Only a reload
/// changes the relay.
pub open spec fn client_after(client: ClientView, inputs: Seq<Input>) -> ClientView
    decreases inputs.len(),
{
    if inputs.len() == 0 {
        client
    } else {
        let before = client_after(client, inputs.drop_last());
        match inputs.last() {
            Input::Reload(table) => before.reload(table),
            Input::Reader(_) => before,
        }
    }
}

/// However reloads and events follow each other, the table by which an event
/// is routed is the table that the relay started with or one of the tables
/// that were loaded, as a whole: never a mix of two tables.
pub proof fn lemma_table_in_force_was_loaded_whole(client: ClientView, inputs: Seq<Input>)
    ensures
        client_after(client, inputs).identity == client.identity,
        client_after(client, inputs).routes == client.routes || exists|k: int|
            0 <= k < inputs.len() && #[trigger] inputs[k] == Input::Reload(
                client_after(client, inputs).routes,
            ),
    decreases inputs.len(),
{
    if inputs.len() > 0 {
        let earlier = inputs.drop_last();
        lemma_table_in_force_was_loaded_whole(client, earlier);
        match inputs.last() {
            Input::Reload(table) => {
                assert(inputs[inputs.len() - 1] == Input::Reload(table));
            },
            Input::Reader(_) => {
                if client_after(client, earlier).routes != client.routes {
                    let k = choose|k: int|
                        0 <= k < earlier.len() && #[trigger] earlier[k] == Input::Reload(
                            client_after(client, earlier).routes,
                        );
                    assert(inputs[k] == earlier[k]);
                }
            },
        }
    }
}

/// Loading the table that is already in force changes nothing: the relay is
/// the same, and so is what it makes of every later event.
pub proof fn lemma_reload_is_idempotent(
    client: ClientView,
    table: Map<Seq<char>, Seq<ChannelTargetView>>,
    nick: Seq<char>,
    event: ReaderEventView,
)
    ensures
        client.reload(table).reload(table) == client.reload(table),
        client.reload(table).reload(table).read(nick, event) == client.reload(table).read(
            nick,
            event,
        ),
{
}

/// An event that asks not to be relayed gives no message, whatever it is
/// and whatever the routing table holds.
pub proof fn lemma_opted_out_event_gives_nothing(
    client: ClientView,
    nick: Seq<char>,
    event: EventView,
)
    requires
        opted_out(event.tags),
    ensures
        produced(client.relay(nick, event)).len() == 0,
{
}

/// An event that reports what the relay has sent itself gives no message:
/// relays that feed each other do not repeat their own output.
pub proof fn lemma_own_output_gives_nothing(client: ClientView, nick: Seq<char>, event: EventView)
    requires
        event.inner matches Some(inner) && is_self_echo(inner, client.identity),
    ensures
        produced(client.relay(nick, event)).len() == 0,
{
}

/// A private event gives no message.
pub proof fn lemma_private_event_gives_nothing(client: ClientView, nick: Seq<char>, event: EventView)
    requires
        event.inner matches Some(inner) && inner.is_private(),
    ensures
        produced(client.relay(nick, event)).len() == 0,
{
}

} // verus!
