use vstd::prelude::*;

verus! {

/// Which end of the buffer `dequeue` serves.
#[derive(Clone, Copy, Debug, PartialEq, Eq, Structural)]
pub enum QueueOrder {
    FirstOut,
    LastOut,
}

/// The pool's plain work queue: an ordered buffer served either first-in
/// first-out or last-in first-out. The blocking shell shares one of these
/// between producers and consumers under a lock; the buffer logic itself is
/// here.
pub struct ThreadSafeQueue<ItemType> {
    buffer: Vec<ItemType>,
    order: QueueOrder,
}

impl<ItemType> View for ThreadSafeQueue<ItemType> {
    type V = Seq<ItemType>;

    closed spec fn view(&self) -> Seq<ItemType> {
        self.buffer@
    }
}

impl<ItemType> ThreadSafeQueue<ItemType> {
    /// The end this queue serves from.
    pub closed spec fn discipline(&self) -> QueueOrder {
        self.order
    }

    /// An empty queue serving the given end.
    pub fn new(order: QueueOrder) -> (q: Self)
        ensures
            q@ == Seq::<ItemType>::empty(),
            q.discipline() == order,
    {
        ThreadSafeQueue { buffer: Vec::new(), order }
    }

    /// Appends `value` at the back of the buffer.
    pub fn enqueue(&mut self, value: ItemType)
        requires
            old(self)@.len() < usize::MAX,
        ensures
            final(self)@ == old(self)@.push(value),
            final(self).discipline() == old(self).discipline(),
    {
        self.buffer.push(value);
    }

    /// Takes the next item: the front under `FirstOut`, the back under
    /// `LastOut`; `None` when the buffer is empty.
    pub fn dequeue(&mut self) -> (r: Option<ItemType>)
        ensures
            final(self).discipline() == old(self).discipline(),
            old(self)@.len() == 0 ==> r is None && final(self)@ == old(self)@,
            old(self)@.len() > 0 && old(self).discipline() == QueueOrder::FirstOut ==> r == Some(
                old(self)@[0],
            ) && final(self)@ == old(self)@.subrange(1, old(self)@.len() as int),
            old(self)@.len() > 0 && old(self).discipline() == QueueOrder::LastOut ==> r == Some(
                old(self)@.last(),
            ) && final(self)@ == old(self)@.drop_last(),
    {
        if self.buffer.len() == 0 {
            return None;
        }
        match self.order {
            QueueOrder::FirstOut => Some(self.buffer.remove(0)),
            QueueOrder::LastOut => self.buffer.pop(),
        }
    }

    /// Number of items waiting.
    pub fn len(&self) -> (n: usize)
        ensures
            n == self@.len(),
    {
        self.buffer.len()
    }
}

} // verus!
