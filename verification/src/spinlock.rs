use vstd::prelude::*;

verus! {

/// A busy-waiting mutual-exclusion lock.
///
/// The lock is a state machine over a single boolean flag. A running
/// implementation acquires it by atomically swapping the flag to `true`
/// (acquire ordering) and spinning while the swap returns `true`; releasing
/// stores `false` (release ordering). Here the flag transitions are the
/// verified model: acquisition is only enabled while the flag is clear,
/// because a caller of `lock` on a held lock would spin without ever
/// returning.
pub struct SpinLock<T> {
    locked: bool,
    value: T,
}

/// Token witnessing that the spin lock is held.
///
/// Access to the protected value goes through [`SpinLock::get`] and
/// [`SpinLock::get_mut`], which demand the token, and the token is consumed
/// by [`SpinLock::unlock`]: the critical section is bracketed by the token's
/// lifetime.
pub struct Guard {
    _private: (),
}

impl<T> SpinLock<T> {
    /// Whether the lock is currently held.
    pub closed spec fn is_locked(&self) -> bool {
        self.locked
    }

    /// The protected value.
    pub closed spec fn stored(&self) -> T {
        self.value
    }

    pub fn new(value: T) -> (r: Self)
        ensures
            !r.is_locked(),
            r.stored() == value,
    {
        SpinLock { locked: false, value }
    }

    /// Acquire the lock, obtaining the token for the critical section.
    ///
    /// A running caller busy-waits while the flag is set; the transition is
    /// therefore only enabled on an unlocked lock.
    pub fn lock(&mut self) -> (g: Guard)
        requires
            !old(self).is_locked(),
        ensures
            final(self).is_locked(),
            final(self).stored() == old(self).stored(),
    {
        self.locked = true;
        Guard { _private: () }
    }

    /// Release the lock, consuming the critical-section token.
    pub fn unlock(&mut self, _guard: Guard)
        requires
            old(self).is_locked(),
        ensures
            !final(self).is_locked(),
            final(self).stored() == old(self).stored(),
    {
        self.locked = false;
    }

    /// Read the protected value inside the critical section.
    pub fn get(&self, _guard: &Guard) -> (v: &T)
        requires
            self.is_locked(),
        ensures
            *v == self.stored(),
    {
        &self.value
    }

    /// Mutate the protected value inside the critical section.
    pub fn get_mut(&mut self, _guard: &Guard) -> (v: &mut T)
        requires
            old(self).is_locked(),
        ensures
            *v == old(self).stored(),
            final(self).stored() == *final(v),
            final(self).is_locked(),
    {
        &mut self.value
    }
}

} // verus!
