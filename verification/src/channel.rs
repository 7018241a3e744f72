use vstd::prelude::*;
use vstd::multiset::Multiset;

use crate::priority_queue::PriorityQueue;

verus! {

/// The mathematical state of a worker inbox: what it holds, keyed by
/// priority rank and counted with multiplicity, and whether it was closed.
pub struct ChannelState<T> {
    pub items: Multiset<(u64, T)>,
    pub closed: bool,
}

/// What one dequeue attempt by the owning worker comes to.
pub enum DequeueOutcome<T> {
    /// A held entry of maximal priority rank, taken out.
    Item(u64, T),
    /// The inbox is empty and closed: the worker is done.
    Closed,
    /// The inbox is empty but still open: the worker parks on the condition
    /// variable and asks again when signalled.
    Block,
}

/// A worker's inbox: a priority heap with a closed flag. In the blocking
/// shell the heap sits under a mutex with a condition variable; multiple
/// producers enqueue, the one owning worker dequeues, and every decision
/// about the heap and the flag is made here.
pub struct Channel<T> {
    heap: PriorityQueue<T>,
    closed: bool,
}

impl<T> View for Channel<T> {
    type V = ChannelState<T>;

    closed spec fn view(&self) -> ChannelState<T> {
        ChannelState { items: self.heap.contents(), closed: self.closed }
    }
}

impl<T> Channel<T> {
    /// The inbox invariant: its heap keeps the binary-heap shape.
    pub closed spec fn well_formed(&self) -> bool {
        self.heap.well_formed()
    }

    /// How many entries the heap holds; bounds the multiset of items.
    pub closed spec fn size(&self) -> nat {
        self.heap@.len()
    }

    /// The heap's length and the multiset of items agree; callers use this
    /// to discharge the capacity bound from what the view shows.
    pub proof fn lemma_size_is_item_count(&self)
        ensures
            self.size() == self@.items.len(),
    {
        self.heap@.to_multiset_ensures();
    }

    /// An open, empty inbox.
    pub fn new() -> (c: Self)
        ensures
            c@.items == Multiset::<(u64, T)>::empty(),
            !c@.closed,
            c.well_formed(),
            c.size() == 0,
    {
        let c = Channel { heap: PriorityQueue::new(), closed: false };
        proof {
            c.heap@.to_multiset_ensures();
        }
        c
    }

    /// Files `value` under the priority rank `key` and reports whether a
    /// parked worker must be signalled. An enqueue into a closed inbox
    /// silently drops the value: the pool is shutting down.
    pub fn enqueue(&mut self, key: u64, value: T) -> (signal: bool)
        requires
            old(self).well_formed(),
            old(self).size() < usize::MAX,
        ensures
            final(self).well_formed(),
            signal == !old(self)@.closed,
            final(self)@.closed == old(self)@.closed,
            old(self)@.closed ==> final(self)@ == old(self)@
                && final(self).size() == old(self).size(),
            !old(self)@.closed ==> final(self)@.items == old(self)@.items.insert((key, value))
                && final(self).size() == old(self).size() + 1,
    {
        if self.closed {
            return false;
        }
        self.heap.push(key, value);
        true
    }

    /// One dequeue attempt by the owning worker: an entry of maximal rank
    /// when one is held, the end of work when the inbox is empty and closed,
    /// and otherwise the instruction to park until signalled.
    pub fn try_dequeue(&mut self) -> (r: DequeueOutcome<T>)
        requires
            old(self).well_formed(),
        ensures
            final(self).well_formed(),
            final(self)@.closed == old(self)@.closed,
            old(self)@.items.len() == 0 ==> final(self)@ == old(self)@ && (r is Closed
                <==> old(self)@.closed) && (r is Block <==> !old(self)@.closed),
            old(self)@.items.len() > 0 ==> (r matches DequeueOutcome::Item(k, v) ==> {
                &&& old(self)@.items.contains((k, v))
                &&& final(self)@.items == old(self)@.items.remove((k, v))
                &&& forall|e: (u64, T)| old(self)@.items.contains(e) ==> e.0 <= k
            }) && (r is Item),
    {
        proof {
            self.heap@.to_multiset_ensures();
        }
        match self.heap.pop() {
            Some((key, value)) => DequeueOutcome::Item(key, value),
            None => {
                if self.closed {
                    DequeueOutcome::Closed
                } else {
                    DequeueOutcome::Block
                }
            },
        }
    }

    /// Discards every pending entry without closing: parked workers stay
    /// parked, and the flag is untouched.
    pub fn clear(&mut self)
        ensures
            final(self).well_formed(),
            final(self)@.items == Multiset::<(u64, T)>::empty(),
            final(self)@.closed == old(self)@.closed,
            final(self).size() == 0,
    {
        self.heap.clear();
        proof {
            self.heap@.to_multiset_ensures();
        }
    }

    /// Closes the inbox: discards every pending entry, raises the flag, and
    /// the caller signals all parked workers so they observe the closure.
    pub fn close(&mut self)
        ensures
            final(self).well_formed(),
            final(self)@.items == Multiset::<(u64, T)>::empty(),
            final(self)@.closed,
            final(self).size() == 0,
    {
        self.closed = true;
        self.heap.clear();
        proof {
            self.heap@.to_multiset_ensures();
        }
    }
}

} // verus!
