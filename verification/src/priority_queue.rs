use vstd::prelude::*;
use vstd::multiset::Multiset;
use vstd::seq_lib::group_to_multiset_ensures;

verus! {

/// Index of the parent of heap slot `i`.
pub open spec fn heap_parent(i: int) -> int {
    (i - 1) / 2
}

/// The binary-heap shape over keyed entries: every entry's key is at most
/// the key of its parent, so the largest key sits at the root.
pub open spec fn heap_ordered<T>(s: Seq<(u64, T)>) -> bool {
    forall|i: int| #![trigger s[i]] 1 <= i < s.len() ==> s[i].0 <= s[heap_parent(i)].0
}

/// The heap shape with one tolerated flaw: the edge from `x` up to its parent
/// may be violated while `x` bubbles up. The keys below `x` are still bounded
/// by the key above `x`, which is what restores the shape after a swap.
pub open spec fn heap_ordered_except_up<T>(s: Seq<(u64, T)>, x: int) -> bool {
    &&& forall|i: int|
        #![trigger s[i]]
        1 <= i < s.len() && i != x ==> s[i].0 <= s[heap_parent(i)].0
    &&& x >= 1 ==> forall|c: int|
        #![trigger s[c]]
        1 <= c < s.len() && heap_parent(c) == x ==> s[c].0 <= s[heap_parent(x)].0
}

/// The heap shape with the edges from the children of `x` tolerated broken
/// while `x` sifts down. The keys below `x` are still bounded by the key
/// above `x`.
pub open spec fn heap_ordered_except_down<T>(s: Seq<(u64, T)>, x: int) -> bool {
    &&& forall|i: int|
        #![trigger s[i]]
        1 <= i < s.len() && heap_parent(i) != x ==> s[i].0 <= s[heap_parent(i)].0
    &&& x >= 1 ==> forall|c: int|
        #![trigger s[c]]
        1 <= c < s.len() && heap_parent(c) == x ==> s[c].0 <= s[heap_parent(x)].0
}

/// Exchanging two entries of a sequence leaves its multiset of entries as it
/// was.
proof fn lemma_swap_preserves_multiset<A>(s: Seq<A>, i: int, j: int)
    requires
        0 <= i < s.len(),
        0 <= j < s.len(),
    ensures
        s.update(i, s[j]).update(j, s[i]).to_multiset() == s.to_multiset(),
{
    broadcast use group_to_multiset_ensures;
    broadcast use vstd::multiset::group_multiset_axioms;

    if i != j {
        let s1 = s.update(i, s[j]);
        let s2 = s1.update(j, s[i]);
        assert(s1[j] == s[j]);
        assert(s1.to_multiset() == s.to_multiset().insert(s[j]).remove(s[i]));
        assert(s2.to_multiset() == s1.to_multiset().insert(s[i]).remove(s[j]));
        assert(s.contains(s[i]));
        assert(s.to_multiset().count(s[i]) > 0);
        assert(s2.to_multiset() =~= s.to_multiset());
    } else {
        assert(s.update(i, s[j]).update(j, s[i]) =~= s);
    }
}

/// In a heap-shaped sequence every key is at most the root's key.
pub proof fn lemma_heap_root_is_max<T>(s: Seq<(u64, T)>, i: int)
    requires
        heap_ordered(s),
        0 <= i < s.len(),
    ensures
        s[i].0 <= s[0].0,
    decreases i,
{
    if i > 0 {
        lemma_heap_root_is_max(s, heap_parent(i));
    }
}

/// A binary max-heap of values keyed by an unsigned rank: the backing store
/// of a worker's inbox. `push` files an entry under its key and `pop` always
/// returns an entry of maximal key, so a worker serves the most urgent task
/// still pending.
pub struct PriorityQueue<T> {
    entries: Vec<(u64, T)>,
}

impl<T> View for PriorityQueue<T> {
    type V = Seq<(u64, T)>;

    closed spec fn view(&self) -> Seq<(u64, T)> {
        self.entries@
    }
}

impl<T> PriorityQueue<T> {
    /// The heap invariant: established by `new` and kept by every method.
    pub open spec fn well_formed(&self) -> bool {
        heap_ordered(self@)
    }

    /// What the queue holds, with multiplicity and without order.
    pub open spec fn contents(&self) -> Multiset<(u64, T)> {
        self@.to_multiset()
    }

    /// An empty queue.
    pub fn new() -> (q: Self)
        ensures
            q@ == Seq::<(u64, T)>::empty(),
            q.well_formed(),
    {
        PriorityQueue { entries: Vec::new() }
    }

    /// Number of entries held.
    pub fn len(&self) -> (n: usize)
        ensures
            n == self@.len(),
    {
        self.entries.len()
    }

    /// Whether the queue holds nothing.
    pub fn is_empty(&self) -> (e: bool)
        ensures
            e == (self@.len() == 0),
    {
        self.entries.len() == 0
    }

    /// Discards every entry without closing anything.
    pub fn clear(&mut self)
        ensures
            final(self)@ == Seq::<(u64, T)>::empty(),
            final(self).well_formed(),
    {
        self.entries.clear();
    }

    /// Swaps the entry at `i` with the last entry.
    fn swap_with_last(&mut self, i: usize)
        requires
            old(self)@.len() > 0,
            i < old(self)@.len(),
        ensures
            final(self)@ == old(self)@.update(i as int, old(self)@.last()).update(
                old(self)@.len() - 1,
                old(self)@[i as int],
            ),
    {
        let ghost s0 = self@;
        let x = self.entries.swap_remove(i);
        self.entries.push(x);
        proof {
            assert(self@ =~= s0.update(i as int, s0.last()).update(s0.len() - 1, s0[i as int]));
        }
    }

    /// Swaps the entries at `i` and `j`.
    fn swap_entries(&mut self, i: usize, j: usize)
        requires
            i < old(self)@.len(),
            j < old(self)@.len(),
        ensures
            final(self)@ == old(self)@.update(i as int, old(self)@[j as int]).update(
                j as int,
                old(self)@[i as int],
            ),
    {
        let ghost s0 = self@;
        if i == j {
            proof {
                assert(s0.update(i as int, s0[j as int]).update(j as int, s0[i as int]) =~= s0);
            }
            return;
        }
        let last: usize = self.entries.len() - 1;
        if i == last {
            self.swap_with_last(j);
        } else if j == last {
            self.swap_with_last(i);
        } else {
            self.swap_with_last(j);
            self.swap_with_last(i);
            self.swap_with_last(j);
        }
        proof {
            assert(self@ =~= s0.update(i as int, s0[j as int]).update(j as int, s0[i as int]));
        }
    }

    /// Restores the heap shape by bubbling the entry at `start` up towards
    /// the root while it outranks its parent.
    #[verifier::rlimit(60)]
    fn up_heap(&mut self, start: usize)
        requires
            start < old(self)@.len(),
            heap_ordered_except_up(old(self)@, start as int),
        ensures
            final(self).well_formed(),
            final(self)@.to_multiset() == old(self)@.to_multiset(),
            final(self)@.len() == old(self)@.len(),
    {
        broadcast use group_to_multiset_ensures;

        let mut idx: usize = start;
        while idx > 0 && self.entries[idx].0 > self.entries[(idx - 1) / 2].0
            invariant
                idx < self@.len(),
                self@.len() == old(self)@.len(),
                heap_ordered_except_up(self@, idx as int),
                self@.to_multiset() == old(self)@.to_multiset(),
            decreases idx,
        {
            let p: usize = (idx - 1) / 2;
            proof {
                lemma_swap_preserves_multiset(self@, idx as int, p as int);
            }
            self.swap_entries(idx, p);
            idx = p;
        }
    }

    /// Restores the heap shape by sifting the entry at the root down towards
    /// the leaves while some child outranks it.
    #[verifier::rlimit(60)]
    fn down_heap(&mut self)
        requires
            old(self)@.len() > 0,
            heap_ordered_except_down(old(self)@, 0),
        ensures
            final(self).well_formed(),
            final(self)@.to_multiset() == old(self)@.to_multiset(),
            final(self)@.len() == old(self)@.len(),
    {
        broadcast use group_to_multiset_ensures;

        let mut idx: usize = 0;
        let len: usize = self.entries.len();
        loop
            invariant
                idx < len,
                len == self@.len(),
                self@.len() == old(self)@.len(),
                heap_ordered_except_down(self@, idx as int),
                self@.to_multiset() == old(self)@.to_multiset(),
            decreases len - idx,
        {
            if idx >= len / 2 {
                // no children below this slot
                proof {
                    assert forall|i: int| 1 <= i < self@.len() implies self@[i].0
                        <= self@[heap_parent(i)].0 by {
                        assert(heap_parent(i) != idx as int);
                    }
                }
                return;
            }
            let left: usize = 2 * idx + 1;
            let right: usize = 2 * idx + 2;
            let mut largest: usize = idx;
            if self.entries[left].0 > self.entries[largest].0 {
                largest = left;
            }
            if right < len && self.entries[right].0 > self.entries[largest].0 {
                largest = right;
            }
            if largest == idx {
                proof {
                    assert forall|i: int| 1 <= i < self@.len() implies self@[i].0
                        <= self@[heap_parent(i)].0 by {
                        if heap_parent(i) == idx as int {
                            assert(i == left as int || i == right as int);
                        }
                    }
                }
                return;
            }
            proof {
                lemma_swap_preserves_multiset(self@, idx as int, largest as int);
            }
            self.swap_entries(idx, largest);
            idx = largest;
        }
    }

    /// Files `value` under `key`. The queue afterwards holds exactly the old
    /// entries plus the new one.
    pub fn push(&mut self, key: u64, value: T)
        requires
            old(self).well_formed(),
            old(self)@.len() < usize::MAX,
        ensures
            final(self).well_formed(),
            final(self)@.len() == old(self)@.len() + 1,
            final(self).contents() == old(self).contents().insert((key, value)),
    {
        broadcast use group_to_multiset_ensures;

        let ghost s0 = self@;
        self.entries.push((key, value));
        let last: usize = self.entries.len() - 1;
        proof {
            assert forall|i: int|
                1 <= i < self@.len() && i != last as int implies #[trigger] self@[i].0
                <= self@[heap_parent(i)].0 by {
                assert(self@[i] == s0[i]);
                assert(heap_parent(i) < i);
                assert(self@[heap_parent(i)] == s0[heap_parent(i)]);
            }
            assert forall|c: int|
                1 <= c < self@.len() && heap_parent(c) == last as int implies #[trigger] self@[c].0
                <= self@[heap_parent(last as int)].0 by {
                assert(c > last as int);
                assert(false);
            }
        }
        self.up_heap(last);
    }

    /// Removes and returns an entry of maximal key, or `None` when the queue
    /// is empty. The remaining entries are exactly the old ones with that
    /// entry taken out once.
    pub fn pop(&mut self) -> (r: Option<(u64, T)>)
        requires
            old(self).well_formed(),
        ensures
            final(self).well_formed(),
            old(self)@.len() == 0 ==> r is None && final(self)@ == old(self)@,
            old(self)@.len() > 0 ==> {
                &&& r == Some(old(self)@[0])
                &&& final(self)@.len() == old(self)@.len() - 1
                &&& old(self).contents().contains(old(self)@[0])
                &&& final(self).contents() == old(self).contents().remove(old(self)@[0])
                &&& forall|e: (u64, T)|
                    old(self).contents().contains(e) ==> e.0 <= old(self)@[0].0
            },
    {
        broadcast use group_to_multiset_ensures;

        if self.entries.len() == 0 {
            return None;
        }
        let ghost s0 = self@;
        proof {
            assert(s0.to_multiset().contains(s0[0]));
            assert forall|e: (u64, T)| s0.to_multiset().contains(e) implies e.0 <= s0[0].0 by {
                let i: int = choose|i: int| 0 <= i < s0.len() && s0[i] == e;
                lemma_heap_root_is_max(s0, i);
            }
        }
        let top = self.entries.swap_remove(0);
        proof {
            let s1 = s0.update(0, s0.last());
            assert(self@ =~= s1.drop_last());
            assert(s1.drop_last() =~= s1.remove(s1.len() - 1));
            assert(s1.to_multiset() == s0.to_multiset().insert(s0.last()).remove(s0[0]));
            if s0.len() > 1 {
                assert(s1[s1.len() - 1] == s0.last());
                assert(self@.to_multiset() == s1.to_multiset().remove(s0.last()));
                assert(self@.to_multiset() =~= s0.to_multiset().remove(s0[0]));
            } else {
                assert(self@.len() == 0);
                assert(self@.to_multiset() =~= s0.to_multiset().remove(s0[0]));
            }
        }
        if self.entries.len() > 0 {
            proof {
                assert forall|i: int|
                    1 <= i < self@.len() && heap_parent(i) != 0 implies #[trigger] self@[i].0
                    <= self@[heap_parent(i)].0 by {
                    assert(self@[i] == s0[i]);
                    assert(self@[heap_parent(i)] == s0[heap_parent(i)]);
                }
            }
            self.down_heap();
        }
        Some(top)
    }
}

/// A maximal entry of what remains after taking a maximal entry out never
/// outranks the one taken first: a worker left alone with its inbox serves
/// tasks in non-increasing priority order.
pub proof fn lemma_pops_are_ordered<T>(
    m: Multiset<(u64, T)>,
    first: (u64, T),
    second: (u64, T),
)
    requires
        m.contains(first),
        forall|e: (u64, T)| m.contains(e) ==> e.0 <= first.0,
        m.remove(first).contains(second),
    ensures
        second.0 <= first.0,
{
    assert(m.contains(second));
}

/// A pop trace of a priority heap: each entry in turn was held and of
/// maximal key among what remained when it was taken, starting from `m`.
/// `pop`'s contract makes every run of successive pops such a trace.
pub open spec fn valid_pop_sequence<T>(m: Multiset<(u64, T)>, ps: Seq<(u64, T)>) -> bool
    decreases ps.len(),
{
    ps.len() == 0 || {
        &&& m.contains(ps[0])
        &&& forall|e: (u64, T)| m.contains(e) ==> e.0 <= ps[0].0
        &&& valid_pop_sequence(m.remove(ps[0]), ps.drop_first())
    }
}

/// Pops never climb: along any pop trace the keys are non-increasing, so a
/// worker that drains its inbox with no interleaved submissions serves its
/// tasks strictly in priority order.
pub proof fn lemma_drain_is_priority_ordered<T>(
    m: Multiset<(u64, T)>,
    ps: Seq<(u64, T)>,
    i: int,
    j: int,
)
    requires
        valid_pop_sequence(m, ps),
        0 <= i <= j < ps.len(),
    ensures
        ps[j].0 <= ps[i].0,
    decreases j,
{
    broadcast use vstd::multiset::group_multiset_axioms;

    if i == j {
    } else if i > 0 {
        lemma_drain_is_priority_ordered(m.remove(ps[0]), ps.drop_first(), i - 1, j - 1);
    } else {
        let rest = ps.drop_first();
        lemma_drain_is_priority_ordered(m.remove(ps[0]), rest, 0, j - 1);
        assert(valid_pop_sequence(m.remove(ps[0]), rest));
        assert(rest.len() > 0);
        assert(m.remove(ps[0]).contains(rest[0]));
        assert(m.contains(rest[0]));
        assert(rest[0].0 <= ps[0].0);
    }
}

} // verus!
