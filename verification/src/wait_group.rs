use vstd::prelude::*;

verus! {

/// The counter behind a collective wait: entered once per party, left once
/// per finished party; a waiter may proceed only when the count is zero.
/// The view is the number of parties still inside.
pub struct WaitGroup {
    count: usize,
}

impl View for WaitGroup {
    type V = nat;

    closed spec fn view(&self) -> nat {
        self.count as nat
    }
}

impl WaitGroup {
    /// A wait group with nobody inside.
    pub fn new() -> (w: Self)
        ensures
            w@ == 0,
    {
        WaitGroup { count: 0 }
    }

    /// A party enters.
    pub fn enter(&mut self)
        requires
            old(self)@ < usize::MAX,
        ensures
            final(self)@ == old(self)@ + 1,
    {
        self.count = self.count + 1;
    }

    /// A party leaves. Returns whether the waiters must be released, which
    /// happens exactly when the last party leaves.
    pub fn leave(&mut self) -> (release: bool)
        requires
            old(self)@ > 0,
        ensures
            final(self)@ == old(self)@ - 1,
            release == (final(self)@ == 0),
    {
        self.count = self.count - 1;
        self.count == 0
    }

    /// One round of the wait loop: proceed when nobody is inside, otherwise
    /// park and ask again.
    pub fn try_wait(&self) -> (proceed: bool)
        ensures
            proceed == (self@ == 0),
    {
        self.count == 0
    }
}

} // verus!
