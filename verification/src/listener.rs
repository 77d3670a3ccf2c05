//! The listener protocol: owning the local endpoint's lifecycle and turning
//! inbound connection attempts into running connection handlers.
//!
//! The endpoint is addressed by a filesystem path, which leaks a path entry
//! when a previous owner crashed; binding therefore distinguishes a path held
//! by a live listener (fatal) from a stale unowned artifact (cleanable). The
//! filesystem and socket operations themselves live with the embedding
//! program; this module fixes the decisions they must follow.

use vstd::prelude::*;

verus! {

/// The endpoint path is unavailable and not cleanable: a live listener holds
/// it. Fatal to the listener; no connections can be served.
#[derive(Clone, Copy, PartialEq, Eq, Structural, Debug)]
pub enum BindError {
    /// Another live listener is bound at the path.
    PathInUse,
}

/// A fatal accept-level failure: the accept loop stops and no further
/// connections are possible. Per-connection failures never become this.
#[derive(Clone, Copy, PartialEq, Eq, Structural, Debug)]
pub enum AcceptError {
    /// Accepting failed for an unrecoverable reason; the loop is over.
    Fatal,
}

/// How to carry out a bind at the endpoint path.
#[derive(Clone, Copy, PartialEq, Eq, Structural, Debug)]
pub enum BindAction {
    /// Nothing is at the path: bind directly.
    BindFresh,
    /// A stale artifact with no live owner is at the path: remove it, then
    /// bind.
    RemoveThenBind,
}

/// Decides a bind attempt from what holds at the endpoint path: whether a
/// filesystem artifact exists there, and whether a live listener owns it.
/// Binding fails exactly when a live listener already holds the path; a
/// leftover artifact from a crashed process is removed first instead.
pub fn bind_plan(artifact_present: bool, live_owner: bool) -> (r: Result<BindAction, BindError>)
    ensures
        r is Err <==> live_owner,
        live_owner ==> r == Err::<BindAction, BindError>(BindError::PathInUse),
        !live_owner && artifact_present ==> r == Ok::<BindAction, BindError>(
            BindAction::RemoveThenBind,
        ),
        !live_owner && !artifact_present ==> r == Ok::<BindAction, BindError>(
            BindAction::BindFresh,
        ),
{
    if live_owner {
        Err(BindError::PathInUse)
    } else if artifact_present {
        Ok(BindAction::RemoveThenBind)
    } else {
        Ok(BindAction::BindFresh)
    }
}

/// One observation of the accept loop.
#[derive(Clone, Copy, PartialEq, Eq, Structural, Debug)]
pub enum AcceptEvent {
    /// A connection was accepted.
    Accepted,
    /// Accepting failed at the accept level.
    AcceptFailed,
}

/// What the accept loop does next.
#[derive(Clone, Copy, PartialEq, Eq, Structural, Debug)]
pub enum AcceptAction {
    /// Spawn one independent connection handler for the accepted peer, with
    /// a clone of the forwarding channel's send side, and keep accepting.
    SpawnHandler,
    /// Surface the fatal error to the owning task and stop accepting.
    StopWithError(AcceptError),
}

/// Decides one step of the accept loop: every successfully accepted
/// connection gets its own concurrent handler and the loop goes on — it
/// never terminates on success; only an accept-level failure stops it, and
/// that failure is surfaced as fatal.
pub fn accept_step(event: AcceptEvent) -> (r: AcceptAction)
    ensures
        event is Accepted <==> r == AcceptAction::SpawnHandler,
        event is AcceptFailed <==> r == AcceptAction::StopWithError(AcceptError::Fatal),
{
    match event {
        AcceptEvent::Accepted => AcceptAction::SpawnHandler,
        AcceptEvent::AcceptFailed => AcceptAction::StopWithError(AcceptError::Fatal),
    }
}

} // verus!
