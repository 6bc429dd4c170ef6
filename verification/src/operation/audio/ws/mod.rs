//! The streaming inference protocol over one socket.

pub mod command_roundtrip;
pub mod order;
pub mod output;
pub mod param;
pub mod roundtrip;
pub mod session;
