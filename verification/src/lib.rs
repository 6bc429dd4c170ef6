//! Verified core of a DashScope client.
//!
//! The heart of the crate is the streaming inference protocol: one socket,
//! one task, commands out and events in. [`operation::audio::ws`] holds its
//! three parts: the command codec (`param`), the event decoder (`output`)
//! and the session driver (`session`), a state machine that is told what
//! happens on the socket and answers with what is to be done. What holds of
//! every session is proved in `order`, and that events survive the wire in
//! `roundtrip`.
//!
//! Around it stand the requests and answers of the other operations, the
//! rules that are checked before a request is sent, and the decisions of the
//! transport: when to retry, when a stream has ended, when to stop polling.
//!
//! JSON is parsed and written by `serde_json`. [`json`] is the boundary: it
//! gives a `Value` a mathematical model and states, without proof, what the
//! accessors and constructors of `serde_json` do to it. Everything else is
//! proved against those statements. Nothing here touches the network, the
//! clock or the disk.

pub mod body;
pub mod client;
pub mod config;
pub mod error;
pub mod json;
pub mod operation;
pub mod oss_util;
pub mod wire;
