//! A fixed-capacity FIFO of `(tick, value)` samples.

use vstd::prelude::*;

verus! {

/// The last `h` elements of `s` (all of `s` when it is shorter).
pub open spec fn last_n<T>(s: Seq<T>, h: nat) -> Seq<T> {
    if s.len() <= h {
        s
    } else {
        s.subrange(s.len() - h, s.len() as int)
    }
}

/// Ticks strictly increase along the sequence.
pub open spec fn ticks_increasing(s: Seq<(u64, u64)>) -> bool {
    forall|i: int, j: int| 0 <= i < j < s.len() ==> s[i].0 < s[j].0
}

/// What a series holds after pushing every sample of `pushed`, in order,
/// onto a series holding `start` with capacity `h`.
pub open spec fn push_all(start: Seq<(u64, u64)>, pushed: Seq<(u64, u64)>, h: nat) -> Seq<
    (u64, u64),
>
    decreases pushed.len(),
{
    if pushed.len() == 0 {
        start
    } else {
        let before = push_all(start, pushed.drop_last(), h);
        last_n(before.push(pushed.last()), h)
    }
}

/// Samples of one metric, oldest first, never more than `capacity`. A ring
/// buffer, so that dropping the oldest sample takes constant time.
pub struct RollingSeries {
    samples: std::collections::VecDeque<(u64, u64)>,
    cap: usize,
}

impl View for RollingSeries {
    type V = Seq<(u64, u64)>;

    closed spec fn view(&self) -> Seq<(u64, u64)> {
        self.samples@
    }
}

impl RollingSeries {
    pub closed spec fn spec_capacity(&self) -> nat {
        self.cap as nat
    }

    pub open spec fn wf(&self) -> bool {
        &&& self@.len() <= self.spec_capacity()
        &&& ticks_increasing(self@)
    }

    /// An empty series that keeps at most `capacity` samples.
    pub fn new(capacity: usize) -> (r: RollingSeries)
        ensures
            r@ == Seq::<(u64, u64)>::empty(),
            r.spec_capacity() == capacity,
            r.wf(),
    {
        RollingSeries { samples: std::collections::VecDeque::new(), cap: capacity }
    }

    /// The bound `H` on the number of samples.
    pub fn capacity(&self) -> (r: usize)
        ensures
            r == self.spec_capacity(),
    {
        self.cap
    }

    pub fn len(&self) -> (r: usize)
        ensures
            r == self@.len(),
    {
        self.samples.len()
    }

    /// The samples, oldest first.
    pub fn samples(&self) -> (r: Vec<(u64, u64)>)
        ensures
            r@ == self@,
    {
        let mut out: Vec<(u64, u64)> = Vec::new();
        let mut i: usize = 0;
        while i < self.samples.len()
            invariant
                i <= self@.len(),
                out@ == self@.subrange(0, i as int),
            decreases self@.len() - i,
        {
            out.push(self.samples[i]);
            assert(out@ =~= self@.subrange(0, i + 1));
            i += 1;
        }
        assert(out@ =~= self@);
        out
    }

    /// The most recent sample, if any.
    pub fn latest(&self) -> (r: Option<(u64, u64)>)
        ensures
            self@.len() == 0 ==> r.is_none(),
            self@.len() > 0 ==> r == Some(self@.last()),
    {
        if self.samples.len() == 0 {
            None
        } else {
            Some(self.samples[self.samples.len() - 1])
        }
    }

    /// Appends `(tick, value)`; when that makes the series longer than its
    /// capacity, the oldest sample leaves.
    pub fn push(&mut self, tick: u64, value: u64)
        requires
            old(self).wf(),
            old(self)@.len() > 0 ==> old(self)@.last().0 < tick,
        ensures
            final(self).wf(),
            final(self).spec_capacity() == old(self).spec_capacity(),
            final(self)@ == last_n(old(self)@.push((tick, value)), old(self).spec_capacity()),
    {
        let ghost pushed = self@.push((tick, value));
        self.samples.push_back((tick, value));
        if self.samples.len() > self.cap {
            self.samples.pop_front();
            assert(self@ =~= pushed.subrange(pushed.len() - self.cap, pushed.len() as int));
        }
    }
}

/// However many samples are pushed, a series keeps no more than its capacity,
/// and what it keeps is exactly the last `H` samples pushed, in the order they
/// were pushed.
pub proof fn lemma_push_all_keeps_last(pushed: Seq<(u64, u64)>, h: nat)
    ensures
        push_all(Seq::empty(), pushed, h).len() <= h,
        push_all(Seq::empty(), pushed, h) == last_n(pushed, h),
    decreases pushed.len(),
{
    if pushed.len() > 0 {
        let prefix = pushed.drop_last();
        lemma_push_all_keeps_last(prefix, h);
        let before = last_n(prefix, h);
        let with = before.push(pushed.last());
        assert(prefix.push(pushed.last()) =~= pushed);
        if prefix.len() <= h {
            assert(with =~= pushed);
        } else {
            assert(last_n(with, h) =~= last_n(pushed, h));
        }
    }
}

} // verus!
