//! The unbounded FIFO queue between the capture side and the analysis side.
//!
//! The producer of windows never blocks on the consumer; the consumer takes
//! windows strictly in arrival order, one at a time.  The queue is unbounded
//! by design: if analysis falls behind capture the backlog grows without
//! limit — a documented resource-exhaustion risk — but order is never
//! corrupted and no window is dropped.

use vstd::prelude::*;

verus! {

/// FIFO queue of captured windows, oldest first.
pub struct WindowQueue {
    pub items: Vec<Vec<i32>>,
}

impl WindowQueue {
    /// The queued windows in arrival order, oldest first.
    pub open spec fn queued(self) -> Seq<Seq<i32>> {
        self.items@.map_values(|w: Vec<i32>| w@)
    }

    pub fn new() -> (q: WindowQueue)
        ensures
            q.queued() == Seq::<Seq<i32>>::empty(),
    {
        let q = WindowQueue { items: Vec::new() };
        proof {
            assert(q.queued() =~= Seq::<Seq<i32>>::empty());
        }
        q
    }

    /// How many windows wait in the queue.
    pub fn len(&self) -> (n: usize)
        ensures
            n == self.queued().len(),
    {
        self.items.len()
    }

    /// Appends a window behind all earlier ones.
    pub fn push_back(&mut self, w: Vec<i32>)
        ensures
            final(self).queued() == old(self).queued().push(w@),
    {
        let ghost w_view = w@;
        self.items.push(w);
        proof {
            assert(self.queued() =~= old(self).queued().push(w_view));
        }
    }

    /// Takes the oldest queued window, or `None` when the queue is empty.
    pub fn pop_front(&mut self) -> (r: Option<Vec<i32>>)
        ensures
            old(self).queued().len() == 0 ==> r is None && final(self).queued() == old(
                self,
            ).queued(),
            old(self).queued().len() > 0 ==> (r matches Some(w) && w@ == old(self).queued()[0]
                && final(self).queued() == old(self).queued().drop_first()),
    {
        if self.items.len() == 0 {
            None
        } else {
            let w = self.items.remove(0);
            proof {
                assert(self.queued() =~= old(self).queued().drop_first());
            }
            Some(w)
        }
    }
}

/// The queue contents after pushing the windows of `xs`, in order, onto a
/// queue holding `q`.
pub open spec fn enqueue_all(q: Seq<Seq<i32>>, xs: Seq<Seq<i32>>) -> Seq<Seq<i32>>
    decreases xs.len(),
{
    if xs.len() == 0 {
        q
    } else {
        enqueue_all(q.push(xs[0]), xs.skip(1))
    }
}

/// Law: however fast windows are fed in, the queue holds the prior backlog
/// followed by the new windows in exactly their arrival order — none
/// dropped, none reordered.
pub proof fn lemma_fifo_order(q: Seq<Seq<i32>>, xs: Seq<Seq<i32>>)
    ensures
        enqueue_all(q, xs) == q + xs,
    decreases xs.len(),
{
    if xs.len() == 0 {
        assert(enqueue_all(q, xs) =~= q + xs);
    } else {
        lemma_fifo_order(q.push(xs[0]), xs.skip(1));
        assert(q.push(xs[0]) + xs.skip(1) =~= q + xs);
    }
}

} // verus!
