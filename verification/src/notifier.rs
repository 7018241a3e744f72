use vstd::prelude::*;

verus! {

/// The one-bit rendezvous used by the outermost blocking driver: a flag that
/// a waker sets and a parked thread consumes. The view is the flag itself.
///
/// The blocking shell keeps this flag under a mutex with a condition
/// variable; the decisions of both sides are made here.
pub struct Notifier {
    was_notified: bool,
}

impl View for Notifier {
    type V = bool;

    closed spec fn view(&self) -> bool {
        self.was_notified
    }
}

impl Notifier {
    /// A fresh notifier with nothing pending.
    pub fn new() -> (n: Self)
        ensures
            n@ == false,
    {
        Notifier { was_notified: false }
    }

    /// Records a wake-up. Returns whether the condition variable must be
    /// signalled: only on the transition from unnotified to notified, so a
    /// storm of wakes costs one signal.
    pub fn wake(&mut self) -> (signal: bool)
        ensures
            final(self)@ == true,
            signal == !old(self)@,
    {
        let signal = !self.was_notified;
        self.was_notified = true;
        signal
    }

    /// One round of the wait loop: a pending notification is consumed and
    /// the caller proceeds; otherwise the caller parks and asks again.
    pub fn try_wait(&mut self) -> (proceed: bool)
        ensures
            proceed == old(self)@,
            final(self)@ == false,
    {
        let proceed = self.was_notified;
        self.was_notified = false;
        proceed
    }
}

impl Default for Notifier {
    fn default() -> (n: Self)
        ensures
            n@ == false,
    {
        Notifier::new()
    }
}

} // verus!
