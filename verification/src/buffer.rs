//! The sample buffer: a fixed-capacity, overwrite-oldest circular buffer
//! holding the most recent duration samples.
//!
//! The buffer is a ring over a fixed-size backing vector with a head index
//! and a length; no node-based structure is involved. It is a pure data
//! structure owned exclusively by the consumer side: it has no concurrency
//! of its own.

use vstd::prelude::*;

verus! {

/// What one push does to the buffer's abstract contents: append the value,
/// evicting the oldest element first when the buffer is already full.
pub open spec fn spec_push(b: Seq<u64>, cap: nat, v: u64) -> Seq<u64> {
    if b.len() < cap {
        b.push(v)
    } else {
        b.drop_first().push(v)
    }
}

/// The abstract contents after pushing every element of `s` in order onto `b`.
pub open spec fn push_all(b: Seq<u64>, cap: nat, s: Seq<u64>) -> Seq<u64>
    decreases s.len(),
{
    if s.len() == 0 {
        b
    } else {
        push_all(spec_push(b, cap, s[0]), cap, s.drop_first())
    }
}

/// The suffix of `all` holding its last `cap` elements (all of it when it is
/// no longer than `cap`).
pub open spec fn last_window(all: Seq<u64>, cap: nat) -> Seq<u64> {
    if all.len() <= cap {
        all
    } else {
        all.subrange(all.len() - cap, all.len() as int)
    }
}

/// Pushing a sequence onto any buffer no fuller than `cap` leaves exactly
/// the last-`cap` window of the concatenation.
proof fn lemma_push_all_window(b: Seq<u64>, cap: nat, s: Seq<u64>)
    requires
        b.len() <= cap,
        cap > 0,
    ensures
        push_all(b, cap, s) == last_window(b + s, cap),
    decreases s.len(),
{
    if s.len() == 0 {
        assert(b + s =~= b);
    } else {
        let b1 = spec_push(b, cap, s[0]);
        let s1 = s.drop_first();
        lemma_push_all_window(b1, cap, s1);
        if b.len() < cap {
            assert(b1 + s1 =~= b + s);
        } else {
            // The buffer is full: the very first push already evicts, so the
            // window can never again reach back to the first element.
            assert(b1 + s1 =~= (b + s).drop_first());
            assert(last_window((b + s).drop_first(), cap) =~= last_window(b + s, cap));
        }
    }
}

/// For any sequence of pushes into an initially empty buffer of positive
/// capacity `cap`, the contents never exceed `cap` samples; once at least
/// `cap` values have been pushed the buffer holds exactly the last `cap` of
/// them in arrival order, and before that it holds all of them in order.
pub proof fn lemma_buffer_window(cap: nat, s: Seq<u64>)
    requires
        cap > 0,
    ensures
        push_all(Seq::<u64>::empty(), cap, s).len() <= cap,
        s.len() >= cap ==> push_all(Seq::<u64>::empty(), cap, s) == s.subrange(
            s.len() - cap,
            s.len() as int,
        ),
        s.len() <= cap ==> push_all(Seq::<u64>::empty(), cap, s) == s,
{
    lemma_push_all_window(Seq::<u64>::empty(), cap, s);
    assert(Seq::<u64>::empty() + s =~= s);
    if s.len() >= cap {
        assert(last_window(s, cap) =~= s.subrange(s.len() - cap, s.len() as int));
    }
}

/// A fixed-capacity circular buffer of duration samples, oldest first,
/// overwriting the oldest sample when a push finds it full.
pub struct SampleBuffer {
    /// Backing storage; its length is the buffer's capacity and never changes.
    slots: Vec<u64>,
    /// Index in `slots` of the oldest stored sample.
    head: usize,
    /// Number of stored samples.
    len: usize,
}

impl SampleBuffer {
    /// Well-formedness: the head points into the backing storage (so the
    /// capacity is positive) and the length never exceeds the capacity.
    pub closed spec fn wf(&self) -> bool {
        &&& self.head < self.slots.len()
        &&& self.len <= self.slots.len()
    }

    /// The buffer's fixed capacity.
    pub closed spec fn cap(&self) -> nat {
        self.slots@.len()
    }

    /// The backing index of the `i`-th stored sample, counting from the oldest.
    spec fn slot_of(&self, i: int) -> int {
        if self.head + i < self.slots@.len() {
            self.head + i
        } else {
            self.head + i - self.slots@.len()
        }
    }
}

impl View for SampleBuffer {
    type V = Seq<u64>;

    /// The stored samples in arrival order, oldest first.
    closed spec fn view(&self) -> Seq<u64> {
        Seq::new(self.len as nat, |i: int| self.slots@[self.slot_of(i)])
    }
}

impl SampleBuffer {
    /// Creates an empty buffer that will hold at most `capacity` samples.
    pub fn new(capacity: usize) -> (r: SampleBuffer)
        requires
            capacity >= 1,
        ensures
            r.wf(),
            r.cap() == capacity,
            r@ == Seq::<u64>::empty(),
    {
        let mut slots: Vec<u64> = Vec::new();
        let mut i: usize = 0;
        while i < capacity
            invariant
                i <= capacity,
                slots@.len() == i,
            decreases capacity - i,
        {
            slots.push(0);
            i += 1;
        }
        let r = SampleBuffer { slots, head: 0, len: 0 };
        proof {
            assert(r@ =~= Seq::<u64>::empty());
        }
        r
    }

    /// The buffer's fixed capacity.
    pub fn capacity(&self) -> (r: usize)
        ensures
            r == self.cap(),
    {
        self.slots.len()
    }

    /// How many samples are currently stored.
    pub fn len(&self) -> (r: usize)
        ensures
            r == self@.len(),
    {
        self.len
    }

    /// The `i`-th stored sample, oldest first.
    pub fn get(&self, i: usize) -> (r: u64)
        requires
            self.wf(),
            i < self@.len(),
        ensures
            r == self@[i as int],
    {
        let room = self.slots.len() - self.head;
        let idx = if i < room {
            self.head + i
        } else {
            i - room
        };
        self.slots[idx]
    }

    /// Appends `v`, evicting the oldest sample if the buffer is full.
    pub fn push_overwrite(&mut self, v: u64)
        requires
            old(self).wf(),
        ensures
            final(self).wf(),
            final(self).cap() == old(self).cap(),
            final(self)@ == spec_push(old(self)@, old(self).cap(), v),
    {
        let cap = self.slots.len();
        if self.len < cap {
            let room = cap - self.head;
            let idx = if self.len < room {
                self.head + self.len
            } else {
                self.len - room
            };
            self.slots[idx] = v;
            self.len = self.len + 1;
            proof {
                assert(final(self)@ =~= spec_push(old(self)@, old(self).cap(), v));
            }
        } else {
            self.slots[self.head] = v;
            self.head = if self.head + 1 == cap {
                0
            } else {
                self.head + 1
            };
            proof {
                assert(final(self)@ =~= spec_push(old(self)@, old(self).cap(), v));
            }
        }
    }

    /// A snapshot of the stored samples in arrival order, oldest first. This
    /// is the read-only surface the rendering collaborator polls each frame.
    pub fn samples(&self) -> (r: Vec<u64>)
        requires
            self.wf(),
        ensures
            r@ == self@,
    {
        let mut out: Vec<u64> = Vec::new();
        let mut i: usize = 0;
        let n = self.len();
        while i < n
            invariant
                self.wf(),
                n == self@.len(),
                i <= n,
                out@ =~= self@.subrange(0, i as int),
            decreases n - i,
        {
            out.push(self.get(i));
            i += 1;
        }
        proof {
            assert(out@ =~= self@);
        }
        out
    }
}

} // verus!
