//! A client library and bot harness for a federated, room-based messaging
//! protocol reachable over HTTPS.
//!
//! The library itself performs no I/O: it builds the requests the protocol
//! needs, decodes the responses the server returns, and drives the bot's
//! command-dispatch state machine. A thin unverified shell performs the
//! actual HTTP calls and feeds the raw status and body back in.

pub mod api;
pub mod bot;
pub mod client;
pub mod decode;
pub mod encode;
pub mod error;
pub mod event;
pub mod json;
pub mod sync;
pub mod text;
