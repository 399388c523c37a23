use vstd::prelude::*;

verus! {

use crate::mutex::Mutex;
use crate::mutex::MutexGuard;

/// A condition variable built on a mutex and a generation counter.
///
/// `counter` is bumped on every notification; a waiter snapshots it before
/// releasing the mutex and blocks on a futex-style wait keyed on the counter
/// with the snapshot as expected value. A notification that lands between
/// the release and the block has already changed the counter, so the wait
/// returns at once instead of sleeping through it — the snapshot closes the
/// missed-wakeup window ([`lemma_notification_not_missed`]). `num_waiters`
/// lets the notify side skip the counter bump and the wake when nobody
/// waits.
///
/// Waits may wake spuriously; callers re-check their predicate in a loop.
pub struct Condvar {
    counter: u32,
    num_waiters: usize,
}

/// The generation counter after one notification: one up, wrapping around.
pub open spec fn next_generation(c: u32) -> u32 {
    if c == u32::MAX {
        0
    } else {
        (c + 1) as u32
    }
}

/// One notification always moves the counter off a waiter's snapshot: a
/// waiter that snapshotted the counter and then finds it changed does not
/// block, so a notification sent after the snapshot is never missed.
pub proof fn lemma_notification_not_missed(snapshot: u32)
    ensures
        next_generation(snapshot) != snapshot,
{
}

impl Condvar {
    /// The notification generation counter.
    pub closed spec fn counter(&self) -> u32 {
        self.counter
    }

    /// How many threads are between announcing their wait and returning
    /// from it.
    pub closed spec fn waiters(&self) -> usize {
        self.num_waiters
    }

    pub fn new() -> (r: Self)
        ensures
            r.counter() == 0,
            r.waiters() == 0,
    {
        Condvar { counter: 0, num_waiters: 0 }
    }

    /// Whether a waiter holding the given snapshot would block: the futex
    /// wait sleeps only while the counter still equals the expected value.
    pub fn would_block(&self, snapshot: u32) -> (r: bool)
        ensures
            r == (self.counter() == snapshot),
    {
        self.counter == snapshot
    }

    /// The generation counter as a waiter snapshots it before releasing
    /// the mutex.
    pub fn snapshot(&self) -> (r: u32)
        ensures
            r == self.counter(),
    {
        self.counter
    }

    /// The step before blocking: announce this waiter, so notifications
    /// know somebody must be woken.
    pub fn announce_waiter(&mut self)
        requires
            old(self).waiters() < usize::MAX,
        ensures
            final(self).waiters() == old(self).waiters() + 1,
            final(self).counter() == old(self).counter(),
    {
        self.num_waiters = self.num_waiters + 1;
    }

    /// The step after waking: retract the announcement.
    pub fn retract_waiter(&mut self)
        requires
            old(self).waiters() >= 1,
        ensures
            final(self).waiters() == old(self).waiters() - 1,
            final(self).counter() == old(self).counter(),
    {
        self.num_waiters = self.num_waiters - 1;
    }

    /// Notify one waiter: bump the generation counter and report that one
    /// blocked thread must be woken on it — unless nobody waits, in which
    /// case both the bump and the wake are skipped.
    pub fn notify_one(&mut self) -> (wake_one: bool)
        ensures
            final(self).waiters() == old(self).waiters(),
            wake_one == (old(self).waiters() > 0),
            final(self).counter() == (if old(self).waiters() > 0 {
                next_generation(old(self).counter())
            } else {
                old(self).counter()
            }),
    {
        if self.num_waiters > 0 {
            self.counter = if self.counter == u32::MAX {
                0
            } else {
                self.counter + 1
            };
            true
        } else {
            false
        }
    }

    /// Notify every waiter: bump the generation counter and report that all
    /// blocked threads must be woken on it — unless nobody waits.
    pub fn notify_all(&mut self) -> (wake_all: bool)
        ensures
            final(self).waiters() == old(self).waiters(),
            wake_all == (old(self).waiters() > 0),
            final(self).counter() == (if old(self).waiters() > 0 {
                next_generation(old(self).counter())
            } else {
                old(self).counter()
            }),
    {
        if self.num_waiters > 0 {
            self.counter = if self.counter == u32::MAX {
                0
            } else {
                self.counter + 1
            };
            true
        } else {
            false
        }
    }

    /// Wait on the condition: announce the wait, snapshot the generation
    /// counter, release the mutex, block until the counter moves off the
    /// snapshot (the external futex step, a no-op when a notification
    /// already moved it), then retract the announcement and reacquire the
    /// mutex.
    ///
    /// Returning without a notification is a spurious wakeup, which the
    /// protocol allows: the caller re-checks its predicate in a loop.
    pub fn wait<T>(&mut self, mutex: &mut Mutex<T>, guard: MutexGuard) -> (g: MutexGuard)
        requires
            old(self).waiters() < usize::MAX,
            old(mutex).wf(),
            old(mutex).is_locked(),
        ensures
            final(self).counter() == old(self).counter(),
            final(self).waiters() == old(self).waiters(),
            final(mutex).wf(),
            final(mutex).state() == 1,
            final(mutex).stored() == old(mutex).stored(),
    {
        self.announce_waiter();
        // The snapshot a running implementation hands to the futex wait
        // keyed on the counter, taken before the mutex is released.
        let _snapshot = self.snapshot();
        let _wake = mutex.unlock(guard);
        // A running implementation blocks here while the counter still
        // equals the snapshot; see `would_block`.
        self.retract_waiter();
        mutex.lock()
    }
}

impl Default for Condvar {
    fn default() -> (r: Self)
        ensures
            r.counter() == 0,
            r.waiters() == 0,
    {
        Condvar::new()
    }
}

} // verus!
