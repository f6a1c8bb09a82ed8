use std::collections::VecDeque;
use vstd::math::min;
use vstd::prelude::*;

verus! {

/// Ordered FIFO buffer of normalized samples shared, in spirit, between the
/// decode producer and the audio consumer: the producer appends batches at
/// the back, the consumer removes from the front, and nothing is ever
/// reordered. The consumer never waits for the producer: a pop hands out at
/// most what is available and returns immediately.
pub struct SampleQueue<T> {
    samples: VecDeque<T>,
}

impl<T> View for SampleQueue<T> {
    type V = Seq<T>;

    closed spec fn view(&self) -> Seq<T> {
        self.samples@
    }
}

/// The samples handed out when up to `n` are taken from the front of a queue
/// holding `q`: the first `n` of `q`, or all of `q` if it holds fewer.
pub open spec fn taken_from_front<T>(q: Seq<T>, n: int) -> Seq<T> {
    q.take(min(n, q.len() as int))
}

/// What remains in a queue holding `q` after up to `n` samples are taken
/// from the front.
pub open spec fn left_after_take<T>(q: Seq<T>, n: int) -> Seq<T> {
    q.skip(min(n, q.len() as int))
}

impl<T: Copy> SampleQueue<T> {
    /// A fresh, empty queue.
    pub fn new() -> (q: Self)
        ensures
            q@ == Seq::<T>::empty(),
    {
        SampleQueue { samples: VecDeque::new() }
    }

    /// Producer side: append one decoded batch at the back, in order.
    pub fn push(&mut self, batch: &Vec<T>)
        ensures
            final(self)@ == old(self)@ + batch@,
    {
        let mut i: usize = 0;
        while i < batch.len()
            invariant
                i <= batch.len(),
                self.samples@ == old(self).samples@ + batch@.take(i as int),
            decreases batch.len() - i,
        {
            proof {
                assert(old(self).samples@ + batch@.take(i + 1) =~= (old(self).samples@
                    + batch@.take(i as int)).push(batch@[i as int]));
            }
            self.samples.push_back(batch[i]);
            i = i + 1;
        }
        proof {
            assert(batch@.take(batch@.len() as int) =~= batch@);
        }
    }

    /// Consumer side: remove up to `n` samples from the front, returning them
    /// together with the count actually popped. When fewer than `n` are
    /// available everything present is handed out and the caller pads the
    /// remainder with silence; this call never waits for more data.
    pub fn pop_front(&mut self, n: usize) -> (out: (Vec<T>, usize))
        ensures
            out.1 == min(n as int, old(self)@.len() as int),
            out.0@ == taken_from_front(old(self)@, n as int),
            out.0@.len() == out.1,
            final(self)@ == left_after_take(old(self)@, n as int),
    {
        let avail: usize = self.samples.len();
        let k: usize = if n <= avail {
            n
        } else {
            avail
        };
        let mut taken: Vec<T> = Vec::new();
        let mut i: usize = 0;
        while i < k
            invariant
                i <= k,
                k == min(n as int, old(self)@.len() as int),
                k <= old(self)@.len(),
                taken@ == old(self)@.take(i as int),
                self.samples@ == old(self)@.skip(i as int),
            decreases k - i,
        {
            proof {
                assert(old(self)@.skip(i as int)[0] == old(self)@[i as int]);
            }
            let s = self.samples.pop_front().unwrap();
            taken.push(s);
            proof {
                assert(old(self)@.take(i + 1) =~= old(self)@.take(i as int).push(
                    old(self)@[i as int],
                ));
                assert(old(self)@.skip(i as int).subrange(
                    1,
                    old(self)@.skip(i as int).len() as int,
                ) =~= old(self)@.skip(i + 1));
            }
            i = i + 1;
        }
        (taken, k)
    }

    /// True exactly when no samples are buffered.
    pub fn is_empty(&self) -> (r: bool)
        ensures
            r == (self@.len() == 0),
    {
        self.samples.len() == 0
    }

    /// Number of buffered samples.
    pub fn len(&self) -> (n: usize)
        ensures
            n == self@.len(),
    {
        self.samples.len()
    }

    /// Drop every buffered sample (used when a session is stopped).
    pub fn clear(&mut self)
        ensures
            final(self)@ == Seq::<T>::empty(),
    {
        self.samples.clear()
    }
}

/// First-in first-out: two batches pushed in order onto an empty queue and
/// then popped together come back out as the first batch followed by the
/// second, in their original order, leaving the queue empty.
pub proof fn lemma_fifo_order<T>(first: Seq<T>, second: Seq<T>)
    ensures
        taken_from_front(Seq::<T>::empty() + first + second, first.len() + second.len() as int)
            == first + second,
        left_after_take(Seq::<T>::empty() + first + second, first.len() + second.len() as int)
            == Seq::<T>::empty(),
{
    let q = Seq::<T>::empty() + first + second;
    assert(q =~= first + second);
    assert(q.take(q.len() as int) =~= q);
    assert(q.skip(q.len() as int) =~= Seq::<T>::empty());
}

} // verus!
