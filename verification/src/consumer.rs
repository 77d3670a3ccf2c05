//! The consumer loop: on each activation it drains every currently queued
//! message from the forwarding channel, without blocking, and applies each
//! one to the sample buffer.
//!
//! This is the only interface the rendering collaborator may call into the
//! pipeline; it is safe to call on every redraw tick, returning immediately
//! when nothing is pending.

use futures::channel::mpsc::UnboundedReceiver;
use vstd::prelude::*;

use crate::buffer::{push_all, spec_push, SampleBuffer};
use crate::channel::{try_recv_msg, RecvOutcome};
use crate::msg::Msg;

verus! {

/// What one message does to the buffer's abstract contents: a duration
/// measurement is pushed (overwriting the oldest sample when full); a message
/// of an unknown kind is a no-op.
pub open spec fn apply_msg(b: Seq<u64>, cap: nat, m: Msg) -> Seq<u64> {
    match m {
        Msg::LoopTime(d) => spec_push(b, cap, d),
        Msg::Unknown(_) => b,
    }
}

/// The buffer's abstract contents after applying every message of `ms` in
/// order.
pub open spec fn apply_all(b: Seq<u64>, cap: nat, ms: Seq<Msg>) -> Seq<u64>
    decreases ms.len(),
{
    if ms.len() == 0 {
        b
    } else {
        apply_all(apply_msg(b, cap, ms[0]), cap, ms.drop_first())
    }
}

/// Applying one more message is one more step on the fold.
pub proof fn lemma_apply_all_snoc(b: Seq<u64>, cap: nat, ms: Seq<Msg>, m: Msg)
    ensures
        apply_all(b, cap, ms.push(m)) == apply_msg(apply_all(b, cap, ms), cap, m),
    decreases ms.len(),
{
    reveal_with_fuel(apply_all, 3);
    if ms.len() == 0 {
        assert(ms.push(m)[0] == m);
        assert(ms.push(m).drop_first() =~= Seq::<Msg>::empty());
    } else {
        assert(ms.push(m)[0] == ms[0]);
        assert(ms.push(m).drop_first() =~= ms.drop_first().push(m));
        lemma_apply_all_snoc(apply_msg(b, cap, ms[0]), cap, ms.drop_first(), m);
        assert(apply_all(b, cap, ms) == apply_all(apply_msg(b, cap, ms[0]), cap, ms.drop_first()));
    }
}

/// Whether every message of `ms` is a duration measurement.
pub open spec fn all_loop_times(ms: Seq<Msg>) -> bool {
    forall|i: int| 0 <= i < ms.len() ==> ms[i] is LoopTime
}

/// The measured values of a sequence of messages, in order (a message of an
/// unknown kind contributes a placeholder, so this is meaningful under
/// `all_loop_times`).
pub open spec fn loop_time_values(ms: Seq<Msg>) -> Seq<u64> {
    ms.map_values(
        |m: Msg|
            match m {
                Msg::LoopTime(d) => d,
                Msg::Unknown(_) => 0u64,
            },
    )
}

/// Applying a sequence of duration measurements, in whatever order the
/// channel delivered them across connections, pushes exactly their values in
/// that order: each data message drained is one push into the buffer.
pub proof fn lemma_apply_all_data(b: Seq<u64>, cap: nat, ms: Seq<Msg>)
    requires
        all_loop_times(ms),
    ensures
        apply_all(b, cap, ms) == push_all(b, cap, loop_time_values(ms)),
    decreases ms.len(),
{
    if ms.len() == 0 {
        assert(loop_time_values(ms) =~= Seq::<u64>::empty());
    } else {
        assert(loop_time_values(ms).drop_first() =~= loop_time_values(ms.drop_first()));
        lemma_apply_all_data(apply_msg(b, cap, ms[0]), cap, ms.drop_first());
    }
}

/// Whether `s` is an interleaving of `a` and `b`: it holds every element of
/// both, each of the two in its own relative order, and nothing else.
pub open spec fn is_interleaving<T>(s: Seq<T>, a: Seq<T>, b: Seq<T>) -> bool
    decreases a.len() + b.len(),
{
    if a.len() == 0 {
        s == b
    } else if b.len() == 0 {
        s == a
    } else if s.len() == 0 {
        false
    } else {
        ||| (s[0] == a[0] && is_interleaving(s.drop_first(), a.drop_first(), b))
        ||| (s[0] == b[0] && is_interleaving(s.drop_first(), a, b.drop_first()))
    }
}

/// An interleaving of two sequences of duration measurements is itself all
/// duration measurements, and its values interleave the two value sequences
/// the same way.
proof fn lemma_interleaving_values(s: Seq<Msg>, a: Seq<Msg>, b: Seq<Msg>)
    requires
        is_interleaving(s, a, b),
        all_loop_times(a),
        all_loop_times(b),
    ensures
        all_loop_times(s),
        is_interleaving(loop_time_values(s), loop_time_values(a), loop_time_values(b)),
    decreases a.len() + b.len(),
{
    if a.len() == 0 {
        assert(loop_time_values(s) =~= loop_time_values(b));
    } else if b.len() == 0 {
        assert(loop_time_values(s) =~= loop_time_values(a));
    } else {
        assert(all_loop_times(a.drop_first()));
        assert(all_loop_times(b.drop_first()));
        assert(loop_time_values(s).drop_first() =~= loop_time_values(s.drop_first()));
        assert(loop_time_values(a).drop_first() =~= loop_time_values(a.drop_first()));
        assert(loop_time_values(b).drop_first() =~= loop_time_values(b.drop_first()));
        if s[0] == a[0] && is_interleaving(s.drop_first(), a.drop_first(), b) {
            lemma_interleaving_values(s.drop_first(), a.drop_first(), b);
            assert(forall|i: int| 0 < i < s.len() ==> s[i] == s.drop_first()[i - 1]);
        } else {
            lemma_interleaving_values(s.drop_first(), a, b.drop_first());
            assert(forall|i: int| 0 < i < s.len() ==> s[i] == s.drop_first()[i - 1]);
        }
    }
}

/// However the channel interleaves the duration measurements two connections
/// sent, the consumer applies exactly those messages to the buffer: one push
/// per message, in arrival order, with each connection's own values kept in
/// its send order within that interleaving.
pub proof fn lemma_interleaved_delivery(
    init: Seq<u64>,
    cap: nat,
    s: Seq<Msg>,
    a: Seq<Msg>,
    b: Seq<Msg>,
)
    requires
        is_interleaving(s, a, b),
        all_loop_times(a),
        all_loop_times(b),
    ensures
        apply_all(init, cap, s) == push_all(init, cap, loop_time_values(s)),
        is_interleaving(loop_time_values(s), loop_time_values(a), loop_time_values(b)),
{
    lemma_interleaving_values(s, a, b);
    lemma_apply_all_data(init, cap, s);
}

/// Routes one decoded message into the sample buffer: a duration measurement
/// is pushed with overwrite; a message of an unknown kind is a no-op.
pub fn apply(buf: &mut SampleBuffer, m: Msg)
    requires
        old(buf).wf(),
    ensures
        final(buf).wf(),
        final(buf).cap() == old(buf).cap(),
        final(buf)@ == apply_msg(old(buf)@, old(buf).cap(), m),
{
    match m {
        Msg::LoopTime(d) => buf.push_overwrite(d),
        Msg::Unknown(_) => {},
    }
}

/// Drains every currently queued message from the channel, non-blocking, and
/// applies each one to the buffer, in the order they are received; returns
/// how many messages it applied. It stops as soon as the channel reports
/// empty or closed, so with nothing pending it applies zero messages and the
/// buffer is left exactly as it was.
pub fn drain_apply(buf: &mut SampleBuffer, rx: &mut UnboundedReceiver<Msg>) -> (n: usize)
    requires
        old(buf).wf(),
    ensures
        final(buf).wf(),
        final(buf).cap() == old(buf).cap(),
        exists|ms: Seq<Msg>|
            ms.len() == n && final(buf)@ == apply_all(old(buf)@, old(buf).cap(), ms),
        n == 0 ==> final(buf)@ == old(buf)@,
{
    let ghost mut ms: Seq<Msg> = Seq::empty();
    let mut n: usize = 0;
    loop
        invariant
            buf.wf(),
            buf.cap() == old(buf).cap(),
            ms.len() == n,
            buf@ == apply_all(old(buf)@, old(buf).cap(), ms),
        decreases usize::MAX - n,
    {
        if n == usize::MAX {
            break ;
        }
        match try_recv_msg(rx) {
            RecvOutcome::Item(m) => {
                proof {
                    lemma_apply_all_snoc(old(buf)@, old(buf).cap(), ms, m);
                }
                apply(buf, m);
                proof {
                    ms = ms.push(m);
                }
                n += 1;
            },
            RecvOutcome::Empty => {
                break ;
            },
            RecvOutcome::Closed => {
                break ;
            },
        }
    }
    proof {
        if n == 0 {
            assert(ms =~= Seq::<Msg>::empty());
        }
        assert(ms.len() == n && buf@ == apply_all(old(buf)@, old(buf).cap(), ms));
    }
    n
}

} // verus!
