use vstd::prelude::*;

verus! {

/// A reference-counted container's payload. The count and the sharing live
/// in the blocking shell; what the contracts speak of is the held value,
/// which is also the view.
pub struct CustomArc<T> {
    value: T,
}

impl<T> View for CustomArc<T> {
    type V = T;

    closed spec fn view(&self) -> T {
        self.value
    }
}

impl<T> CustomArc<T> {
    /// Wraps `value`.
    pub fn new(value: T) -> (a: Self)
        ensures
            a@ == value,
    {
        CustomArc { value }
    }

    /// The held value.
    pub fn get(&self) -> (r: &T)
        ensures
            *r == self@,
    {
        &self.value
    }
}

/// A shared value behind a simple exclusive lock. The spinning and the
/// sharing live in the blocking shell; here stand the lock's state machine
/// and the rule that the value is touched only while the lock is held.
pub struct ARCLock<T> {
    ref_counted_value: CustomArc<T>,
    locked: bool,
}

impl<T> ARCLock<T> {
    /// Whether the lock is currently held.
    pub closed spec fn is_locked(&self) -> bool {
        self.locked
    }

    /// The guarded value.
    pub closed spec fn value(&self) -> T {
        self.ref_counted_value@
    }

    /// An unlocked lock guarding `value`.
    pub fn new(value: T) -> (l: Self)
        ensures
            !l.is_locked(),
            l.value() == value,
    {
        ARCLock { ref_counted_value: CustomArc::new(value), locked: false }
    }

    /// One acquisition attempt: takes the lock when it is free, otherwise
    /// reports failure and the caller backs off and retries.
    pub fn try_lock(&mut self) -> (acquired: bool)
        ensures
            acquired == !old(self).is_locked(),
            final(self).is_locked(),
            final(self).value() == old(self).value(),
    {
        let acquired = !self.locked;
        self.locked = true;
        acquired
    }

    /// Releases the lock. Only the holder releases, so the lock is held.
    pub fn unlock(&mut self)
        requires
            old(self).is_locked(),
        ensures
            !final(self).is_locked(),
            final(self).value() == old(self).value(),
    {
        self.locked = false;
    }

    /// Reads the guarded value; the caller must hold the lock.
    pub fn read(&self) -> (r: &T)
        requires
            self.is_locked(),
        ensures
            *r == self.value(),
    {
        self.ref_counted_value.get()
    }

    /// Replaces the guarded value, handing the previous one back; the caller
    /// must hold the lock.
    pub fn replace(&mut self, value: T) -> (prev: T)
        requires
            old(self).is_locked(),
        ensures
            final(self).is_locked(),
            final(self).value() == value,
            prev == old(self).value(),
    {
        let mut holder = CustomArc::new(value);
        core::mem::swap(&mut self.ref_counted_value, &mut holder);
        let CustomArc { value: prev } = holder;
        prev
    }
}

} // verus!
