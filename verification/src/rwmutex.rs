use vstd::prelude::*;

verus! {

use crate::rwlock::RwLock;

/// A reader-writer lock under its older name.
///
/// `RwMutex` runs exactly the protocol of [`RwLock`] — the even/odd word
/// with the `u32::MAX` write-locked sentinel and the separate writer wake
/// counter — and is kept as a thin layer over it so the algorithm exists
/// once. See [`RwLock`] for the transition table.
pub struct RwMutex<T> {
    inner: RwLock<T>,
}

/// Token witnessing one shared (read) acquisition of the lock.
pub struct ReadGuard {
    inner: crate::rwlock::ReadGuard,
}

/// Token witnessing the exclusive (write) acquisition of the lock.
pub struct WriteGuard {
    inner: crate::rwlock::WriteGuard,
}

impl<T> RwMutex<T> {
    /// The primary word.
    pub closed spec fn state(&self) -> u32 {
        self.inner.state()
    }

    /// The counter bumped solely to wake blocked writers.
    pub closed spec fn wake_counter(&self) -> u32 {
        self.inner.wake_counter()
    }

    /// The protected value.
    pub closed spec fn stored(&self) -> T {
        self.inner.stored()
    }

    /// Whether a writer holds the lock.
    pub closed spec fn is_write_locked(&self) -> bool {
        self.inner.is_write_locked()
    }

    /// How many readers hold the lock.
    pub closed spec fn readers(&self) -> u32 {
        self.inner.readers()
    }

    pub fn new(value: T) -> (r: Self)
        ensures
            r.state() == 0,
            r.wake_counter() == 0,
            r.stored() == value,
    {
        RwMutex { inner: RwLock::new(value) }
    }

    /// Acquire the lock shared; see [`RwLock::read`].
    pub fn read(&mut self) -> (g: ReadGuard)
        requires
            old(self).state() % 2 == 0,
            old(self).state() < u32::MAX - 3,
        ensures
            final(self).state() == old(self).state() + 2,
            final(self).readers() == old(self).readers() + 1,
            final(self).wake_counter() == old(self).wake_counter(),
            final(self).stored() == old(self).stored(),
    {
        ReadGuard { inner: self.inner.read() }
    }

    /// Acquire the lock exclusively; see [`RwLock::write`].
    pub fn write(&mut self) -> (g: WriteGuard)
        requires
            old(self).state() <= 1,
        ensures
            final(self).is_write_locked(),
            final(self).readers() == 0,
            final(self).wake_counter() == old(self).wake_counter(),
            final(self).stored() == old(self).stored(),
    {
        WriteGuard { inner: self.inner.write() }
    }

    /// Release one shared acquisition; see [`RwLock::unlock_read`].
    pub fn unlock_read(&mut self, guard: ReadGuard) -> (wake_writer: bool)
        requires
            old(self).state() >= 2,
            !old(self).is_write_locked(),
        ensures
            final(self).state() == old(self).state() - 2,
            final(self).readers() == old(self).readers() - 1,
            wake_writer == (old(self).state() == 3),
            final(self).stored() == old(self).stored(),
    {
        self.inner.unlock_read(guard.inner)
    }

    /// Release the exclusive acquisition; see [`RwLock::unlock_write`].
    pub fn unlock_write(&mut self, guard: WriteGuard)
        requires
            old(self).is_write_locked(),
        ensures
            final(self).state() == 0,
            final(self).readers() == 0,
            final(self).stored() == old(self).stored(),
    {
        self.inner.unlock_write(guard.inner)
    }

    /// Read the protected value under a shared acquisition.
    pub fn get(&self, guard: &ReadGuard) -> (v: &T)
        requires
            self.readers() >= 1,
        ensures
            *v == self.stored(),
    {
        self.inner.get(&guard.inner)
    }

    /// Read the protected value under the exclusive acquisition.
    pub fn get_write(&self, guard: &WriteGuard) -> (v: &T)
        requires
            self.is_write_locked(),
        ensures
            *v == self.stored(),
    {
        self.inner.get_write(&guard.inner)
    }

    /// Mutate the protected value under the exclusive acquisition.
    pub fn get_mut(&mut self, guard: &WriteGuard) -> (v: &mut T)
        requires
            old(self).is_write_locked(),
        ensures
            *v == old(self).stored(),
            final(self).stored() == *final(v),
            final(self).state() == old(self).state(),
    {
        self.inner.get_mut(&guard.inner)
    }
}

} // verus!
