//! A local telemetry-streaming bridge: framed telemetry messages arrive over a
//! local endpoint, one connection handler per peer decodes them and forwards
//! the data-carrying ones through a multi-producer channel, and a single
//! consumer drains that channel into a fixed-capacity, overwrite-oldest
//! sample buffer.

pub mod buffer;
pub mod channel;
pub mod codec;
pub mod conn;
pub mod consumer;
pub mod listener;
pub mod msg;
