//! The forwarding channel: the multi-producer, single-consumer, unbounded
//! queue that carries decoded messages from every connection handler to the
//! single consumer.
//!
//! The queue itself is the `futures` crate's unbounded mpsc channel; this
//! module declares its endpoint types and wraps the two operations the
//! pipeline calls. The channel delivers each producer's messages in the order
//! that producer sent them, but gives no ordering across producers; since the
//! set of queued messages also depends on what other threads have sent, the
//! wrappers promise nothing about which message comes out — the verified
//! callers state what holds whatever came back.

use futures::channel::mpsc::{TryRecvError, UnboundedReceiver, UnboundedSender};
use vstd::prelude::*;

use crate::msg::Msg;

verus! {

#[verifier::external_type_specification]
#[verifier::external_body]
#[verifier::reject_recursive_types(T)]
pub struct ExUnboundedSender<T>(UnboundedSender<T>);

#[verifier::external_type_specification]
#[verifier::external_body]
#[verifier::reject_recursive_types(T)]
pub struct ExUnboundedReceiver<T>(UnboundedReceiver<T>);

/// Outcome of one non-blocking receive from the forwarding channel.
#[derive(Clone, Copy, PartialEq, Eq, Structural, Debug)]
pub(crate) enum RecvOutcome {
    /// The next queued message.
    Item(Msg),
    /// Nothing queued right now, but senders may still deliver more.
    Empty,
    /// Nothing queued and every send side has been dropped.
    Closed,
}

/// Relies on `UnboundedSender::unbounded_send` of the futures crate: the
/// channel is unbounded, so the send never blocks; it enqueues the message
/// and returns `Ok` unless the receive side has been dropped, which is the
/// only failure. Returns whether the message was enqueued.
#[verifier::external_body]
pub(crate) fn send_msg(sx: &UnboundedSender<Msg>, m: Msg) -> bool {
    sx.unbounded_send(m).is_ok()
}

/// Relies on `UnboundedReceiver::try_recv` of the futures crate: without
/// blocking, it pops the next queued message if one is present, and otherwise
/// reports the channel empty, or closed when it is empty and every sender has
/// been dropped.
#[verifier::external_body]
pub(crate) fn try_recv_msg(rx: &mut UnboundedReceiver<Msg>) -> RecvOutcome {
    match rx.try_recv() {
        Ok(m) => RecvOutcome::Item(m),
        Err(TryRecvError::Empty) => RecvOutcome::Empty,
        Err(TryRecvError::Closed) => RecvOutcome::Closed,
    }
}

} // verus!
