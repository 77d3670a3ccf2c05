//! The per-connection protocol: one handler pumps exactly one accepted
//! connection, decoding its frames and forwarding the data-carrying messages
//! into the forwarding channel, until the peer closes or an error ends the
//! connection.
//!
//! Every error here is local to its connection: it moves that connection to
//! `Failed` and touches nothing else. Handlers share no state but the
//! channel's send side.

use futures::channel::mpsc::UnboundedSender;
use vstd::prelude::*;

use crate::channel::send_msg;
use crate::codec::{decode_payload, spec_decode_payload, DecodeError};
use crate::msg::Msg;

verus! {

/// Why a connection ended in failure. All of these are local to the one
/// connection; none is surfaced to the consumer or to other connections.
#[derive(Clone, Copy, PartialEq, Eq, Structural, Debug)]
pub enum ConnError {
    /// A malformed frame or payload arrived on this connection.
    Decode(DecodeError),
    /// The underlying transport failed on this connection.
    Transport,
    /// The consumer side of the forwarding channel was dropped (shutdown).
    ChannelClosed,
}

/// The state of one connection. A fresh accepted connection starts in
/// `Reading`; there is no resumption out of `Closed` or `Failed`.
#[derive(Clone, Copy, PartialEq, Eq, Structural, Debug)]
pub enum ConnState {
    /// Waiting for, or processing, the next frame.
    Reading,
    /// The peer closed cleanly (end of stream).
    Closed,
    /// The connection ended on an error.
    Failed(ConnError),
}

/// One observation the transport layer hands the connection handler.
pub enum ConnEvent {
    /// One complete frame's payload arrived.
    Frame(Vec<u8>),
    /// The front of the stream was not a well-formed frame.
    BadFrame,
    /// The peer closed the stream cleanly.
    Eof,
    /// Reading from the transport failed.
    TransportFailure,
}

/// Advances one connection by one event: decodes an arrived frame, forwards
/// a data-carrying message into the channel, ignores a message of an unknown
/// kind, and ends the connection on clean end-of-stream or on any error.
///
/// A forwarded message can still fail to enqueue when the consumer side has
/// shut down; in exactly that case the handler ends with `ChannelClosed`.
pub fn conn_step(state: ConnState, event: &ConnEvent, sx: &UnboundedSender<Msg>) -> (r: ConnState)
    ensures
        !(state is Reading) ==> r == state,
        state is Reading ==> match *event {
            ConnEvent::Eof => r == ConnState::Closed,
            ConnEvent::TransportFailure => r == ConnState::Failed(ConnError::Transport),
            ConnEvent::BadFrame => r == ConnState::Failed(
                ConnError::Decode(DecodeError::OversizedFrame),
            ),
            ConnEvent::Frame(p) => match spec_decode_payload(p@) {
                Err(e) => r == ConnState::Failed(ConnError::Decode(e)),
                Ok(m) => match m {
                    Msg::Unknown(_) => r == ConnState::Reading,
                    Msg::LoopTime(_) => r == ConnState::Reading || r == ConnState::Failed(
                        ConnError::ChannelClosed,
                    ),
                },
            },
        },
{
    match state {
        ConnState::Reading => match event {
            ConnEvent::Eof => ConnState::Closed,
            ConnEvent::TransportFailure => ConnState::Failed(ConnError::Transport),
            ConnEvent::BadFrame => ConnState::Failed(
                ConnError::Decode(DecodeError::OversizedFrame),
            ),
            ConnEvent::Frame(p) => match decode_payload(p.as_slice()) {
                Err(e) => ConnState::Failed(ConnError::Decode(e)),
                Ok(Msg::Unknown(_)) => ConnState::Reading,
                Ok(Msg::LoopTime(d)) => {
                    if send_msg(sx, Msg::LoopTime(d)) {
                        ConnState::Reading
                    } else {
                        ConnState::Failed(ConnError::ChannelClosed)
                    }
                },
            },
        },
        ConnState::Closed => ConnState::Closed,
        ConnState::Failed(e) => ConnState::Failed(e),
    }
}

} // verus!
