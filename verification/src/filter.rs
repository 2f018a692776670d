//! The self-echo filter: which events are never relayed.
//!
//! Relays that feed each other's channels would repeat each other's output
//! without end. Each relay therefore leaves out what it has sent itself, what
//! a plugin has marked as not to be relayed, and everything private.

use crate::event::{EventInner, EventInnerView};
use crate::tags::Tags;
use vstd::prelude::*;

verus! {

/// Why an event is not relayed.
#[derive(Clone, Copy, Debug, PartialEq, Eq, Structural)]
pub enum SkipReason {
    /// The event carries the tag `proxy/skip` with the value `1`.
    OptedOut,
    /// The event reports what this relay has sent itself.
    SelfEcho,
    /// The event concerns a private conversation.
    Private,
}

/// The name of the tag by which a plugin keeps an event from being relayed.
pub open spec fn skip_tag() -> Seq<char> {
    "proxy/skip"@
}

/// The tags ask that the event is not relayed.
pub open spec fn opted_out(tags: Map<Seq<char>, Seq<char>>) -> bool {
    tags.contains_key(skip_tag()) && tags[skip_tag()] == "1"@
}

/// The event reports what the relay named `identity` has sent itself.
pub open spec fn is_self_echo(inner: EventInnerView, identity: Seq<char>) -> bool {
    inner.sender() == Some(identity)
}

/// Why the event is left out, by the first rule that applies; `None` where
/// it is relayed.
pub open spec fn skip_reason_of(
    tags: Map<Seq<char>, Seq<char>>,
    inner: EventInnerView,
    identity: Seq<char>,
) -> Option<SkipReason> {
    if opted_out(tags) {
        Some(SkipReason::OptedOut)
    } else if is_self_echo(inner, identity) {
        Some(SkipReason::SelfEcho)
    } else if inner.is_private() {
        Some(SkipReason::Private)
    } else {
        None
    }
}

/// The event is left out.
pub open spec fn skips(
    tags: Map<Seq<char>, Seq<char>>,
    inner: EventInnerView,
    identity: Seq<char>,
) -> bool {
    skip_reason_of(tags, inner, identity) is Some
}

/// Tells whether the tags ask that the event is not relayed.
pub fn has_opted_out(tags: &Tags) -> (out: bool)
    ensures
        out == opted_out(tags@),
{
    match tags.get("proxy/skip") {
        Some(value) => {
            let one = "1".to_owned();
            *value == one
        },
        None => false,
    }
}

/// Tells why an event with these tags and this payload is left out by the
/// relay named `identity`, by the first rule that applies.
pub fn skip_reason(tags: &Tags, inner: &EventInner, identity: &String) -> (reason: Option<
    SkipReason,
>)
    ensures
        reason == skip_reason_of(tags@, inner@, identity@),
{
    if has_opted_out(tags) {
        return Some(SkipReason::OptedOut);
    }
    match inner {
        EventInner::SendMessage { sender, .. } => {
            if *sender == *identity {
                Some(SkipReason::SelfEcho)
            } else {
                None
            }
        },
        EventInner::PerformAction { sender, .. } => {
            if *sender == *identity {
                Some(SkipReason::SelfEcho)
            } else {
                None
            }
        },
        EventInner::PrivateMessage => Some(SkipReason::Private),
        EventInner::PrivateAction => Some(SkipReason::Private),
        EventInner::SendPrivateMessage => Some(SkipReason::Private),
        EventInner::PerformPrivateAction => Some(SkipReason::Private),
        _ => None,
    }
}

/// The self-echo filter: tells whether an event with these tags and this
/// payload is left out by the relay named `identity`.
pub fn should_skip(tags: &Tags, inner: &EventInner, identity: &String) -> (skip: bool)
    ensures
        skip == skips(tags@, inner@, identity@),
{
    skip_reason(tags, inner, identity).is_some()
}

} // verus!
