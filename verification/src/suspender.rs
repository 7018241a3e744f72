use vstd::prelude::*;

verus! {

/// The rendezvous state of a suspender.
///
/// `Initial` means nobody is parked and no notification is pending;
/// `Notified` means a resume arrived and has not been consumed yet;
/// `Suspended` means the owning thread is parked waiting for a resume.
#[derive(Clone, Copy, Debug, PartialEq, Eq, Structural)]
pub enum SuspendState {
    Initial,
    Notified,
    Suspended,
}

/// What a caller of `begin_suspend` must do next.
#[derive(Clone, Copy, Debug, PartialEq, Eq, Structural)]
pub enum SuspendDecision {
    /// A notification was already pending and has been consumed: go on.
    Continue,
    /// Park on the condition variable until the state leaves `Suspended`.
    Block,
}

/// The three-state rendezvous a worker parks on between pending polls.
///
/// The blocking shell holds this state under a mutex with a condition
/// variable beside it; every transition decision is made here. A resume that
/// arrives before the suspend is absorbed by the `Initial -> Notified`
/// transition, and the reset after waking lets one pair be reused across
/// successive polls.
pub struct Suspender {
    state: SuspendState,
}

impl View for Suspender {
    type V = SuspendState;

    closed spec fn view(&self) -> SuspendState {
        self.state
    }
}

impl Suspender {
    /// A fresh suspender with no notification pending.
    pub fn new() -> (s: Self)
        ensures
            s@ == SuspendState::Initial,
    {
        Suspender { state: SuspendState::Initial }
    }

    /// Delivers a notification. Returns whether a parked thread must be
    /// woken: only when the owner is currently suspended; a repeated resume
    /// is a no-op and a resume before the suspend is merely stored.
    pub fn resume(&mut self) -> (wake: bool)
        ensures
            final(self)@ == SuspendState::Notified,
            wake == (old(self)@ == SuspendState::Suspended),
    {
        let wake = match self.state {
            SuspendState::Suspended => true,
            _ => false,
        };
        self.state = SuspendState::Notified;
        wake
    }

    /// Begins a suspend. Only the owning thread may suspend, and only one
    /// suspend may be in progress, so the state cannot already be
    /// `Suspended`. A pending notification is consumed and the caller goes
    /// on; otherwise the caller must park until resumed.
    pub fn begin_suspend(&mut self) -> (d: SuspendDecision)
        requires
            old(self)@ != SuspendState::Suspended,
        ensures
            old(self)@ == SuspendState::Notified ==> d == SuspendDecision::Continue
                && final(self)@ == SuspendState::Initial,
            old(self)@ == SuspendState::Initial ==> d == SuspendDecision::Block && final(self)@
                == SuspendState::Suspended,
    {
        match self.state {
            SuspendState::Notified => {
                self.state = SuspendState::Initial;
                SuspendDecision::Continue
            },
            _ => {
                self.state = SuspendState::Suspended;
                SuspendDecision::Block
            },
        }
    }

    /// The current rendezvous state; the wait loop of the blocking shell
    /// reads it to decide whether the park is over.
    pub fn current(&self) -> (s: SuspendState)
        ensures
            s == self@,
    {
        self.state
    }

    /// Completes a suspend after the parked thread was resumed: the wait loop
    /// leaves the condition variable only once the state is no longer
    /// `Suspended`, which only `resume` causes, so a notification is pending.
    /// Consuming it readies the pair for the next poll.
    pub fn finish_suspend(&mut self)
        requires
            old(self)@ == SuspendState::Notified,
        ensures
            final(self)@ == SuspendState::Initial,
    {
        self.state = SuspendState::Initial;
    }
}

} // verus!
