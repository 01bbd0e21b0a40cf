//! Fixed-capacity FIFO history buffers.
//!
//! The panel keeps two kinds of bounded histories: the recent log lines and
//! the recent throughput samples. Both evict the oldest entry first once the
//! capacity is reached, so the buffer always holds the newest entries in
//! arrival order.

use vstd::prelude::*;

verus! {

/// A bounded FIFO buffer: pushing onto a full buffer evicts the oldest entry.
pub struct RingBuffer<T> {
    items: Vec<T>,
    capacity: usize,
}

/// The contents of a buffer of capacity `cap` after one more entry arrives.
pub open spec fn ring_push<T>(w: Seq<T>, v: T, cap: nat) -> Seq<T> {
    if w.len() < cap {
        w.push(v)
    } else {
        w.drop_first().push(v)
    }
}

/// The contents after a whole sequence of entries arrives, oldest first.
pub open spec fn ring_push_all<T>(w: Seq<T>, vs: Seq<T>, cap: nat) -> Seq<T>
    decreases vs.len(),
{
    if vs.len() == 0 {
        w
    } else {
        ring_push_all(ring_push(w, vs[0], cap), vs.drop_first(), cap)
    }
}

/// The newest `cap` entries of a sequence (all of them, if there are fewer).
pub open spec fn newest<T>(s: Seq<T>, cap: nat) -> Seq<T> {
    if s.len() <= cap {
        s
    } else {
        s.subrange(s.len() - cap, s.len() as int)
    }
}

impl<T> View for RingBuffer<T> {
    type V = Seq<T>;

    closed spec fn view(&self) -> Seq<T> {
        self.items@
    }
}

impl<T> RingBuffer<T> {
    pub closed spec fn spec_capacity(self) -> nat {
        self.capacity as nat
    }

    pub closed spec fn wf(self) -> bool {
        &&& self.items@.len() <= self.capacity
        &&& self.capacity >= 1
    }

    pub fn new(capacity: usize) -> (r: Self)
        requires
            capacity >= 1,
        ensures
            r.wf(),
            r@ == Seq::<T>::empty(),
            r.spec_capacity() == capacity,
    {
        RingBuffer { items: Vec::new(), capacity }
    }

    pub fn len(&self) -> (n: usize)
        ensures
            n == self@.len(),
    {
        self.items.len()
    }

    pub fn capacity(&self) -> (n: usize)
        ensures
            n == self.spec_capacity(),
    {
        self.capacity
    }

    pub fn get(&self, i: usize) -> (r: &T)
        requires
            i < self@.len(),
        ensures
            *r == self@[i as int],
    {
        &self.items[i]
    }

    /// Append an entry, evicting the oldest one if the buffer is full.
    pub fn push(&mut self, v: T)
        requires
            old(self).wf(),
        ensures
            final(self).wf(),
            final(self).spec_capacity() == old(self).spec_capacity(),
            final(self)@ == ring_push(old(self)@, v, old(self).spec_capacity()),
    {
        if self.items.len() == self.capacity {
            let _oldest = self.items.remove(0);
            proof {
                assert(self.items@ =~= old(self).items@.drop_first());
            }
        }
        self.items.push(v);
    }
}

/// Law of the bounded histories: after any sequence of arrivals the buffer
/// holds exactly the newest `capacity` entries (or all of them, while fewer
/// have arrived), in arrival order.
pub proof fn lemma_ring_push_all_keeps_newest<T>(w: Seq<T>, vs: Seq<T>, cap: nat)
    requires
        cap >= 1,
        w.len() <= cap,
    ensures
        ring_push_all(w, vs, cap) == newest(w + vs, cap),
    decreases vs.len(),
{
    let all = w + vs;
    if vs.len() == 0 {
        assert(ring_push_all(w, vs, cap) == w);
        assert(all =~= w);
    } else {
        let w1 = ring_push(w, vs[0], cap);
        lemma_ring_push_all_keeps_newest(w1, vs.drop_first(), cap);
        let all1 = w1 + vs.drop_first();
        if w.len() < cap {
            assert(all1 =~= all);
        } else {
            // The buffer is full: the oldest entry is evicted, so the combined
            // stream loses its first element before the induction hypothesis applies.
            assert(all1 =~= all.drop_first());
            assert(newest(all, cap) =~= newest(all1, cap));
        }
    }
}

} // verus!
