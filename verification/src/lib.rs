//! The core of a relay between chat channels.
//!
//! The relay reads one stream of events from a chat backend and repeats what
//! is said in a source channel in the channels that the routing table names
//! for it. This crate holds what the relay decides: which events are left
//! out, how a relayed line reads, which channels get it and in which order,
//! and what the reader and the writer of the relay do next. Reading the
//! stream, waiting on the queue and calling the backend are the caller's
//! part.

pub mod assoc;
pub mod client;
pub mod error;
pub mod event;
pub mod filter;
pub mod format;
pub mod laws;
pub mod outgoing;
pub mod reader;
pub mod routing;
pub mod tags;
pub mod writer;
