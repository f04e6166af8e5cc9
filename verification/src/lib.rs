//! Typed, message-oriented communication over byte streams.
//!
//! A [`serializer::Serializer`] gives a byte stream its wire format: it reads
//! messages from a stream and writes messages to one. A channel owns streams
//! and hands them to a serializer: [`channel::ReadChannel`] and
//! [`channel::WriteChannel`] for one direction, [`channel::UniChannel`] for a
//! reader and a writer, [`channel::BiChannel`] for one stream that is both. A
//! [`server::Server`] answers what arrives on a channel, one message at a
//! time, and a [`server::Daemon`] is the flag under which it does so in the
//! background.
//!
//! [`json::JsonLines`] is a serializer of text messages, one JSON string per
//! line, on [`stream::MemoryStream`], a queue of bytes in memory. The lines
//! are framed in [`frame`]; [`client`] pairs the pipes of a spawned peer.

pub mod channel;
pub mod client;
pub mod frame;
pub mod json;
pub mod prelude;
pub mod serializer;
pub mod server;
pub mod stream;
