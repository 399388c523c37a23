use vstd::prelude::*;

verus! {

use std::collections::VecDeque;

use crate::condvar::Condvar;
use crate::mutex::Mutex;

/// A simple unbounded channel: a queue under a mutex, with a condition
/// variable that wakes a receiver when an item arrives.
///
/// `send` locks the queue, appends, and notifies one waiter; `receive`
/// locks the queue and pops the front item, blocking on `item_ready` while
/// the queue is empty. The blocking is the external step: here receiving is
/// enabled only while an item is queued, because a receiver on an empty
/// queue would sleep until some sender acts.
pub struct Channel<T> {
    queue: Mutex<VecDeque<T>>,
    item_ready: Condvar,
}

impl<T> Channel<T> {
    /// The queued items, front first.
    pub closed spec fn items(&self) -> Seq<T> {
        self.queue.stored()@
    }

    /// The generation counter of the receivers' condition variable.
    pub closed spec fn notify_counter(&self) -> u32 {
        self.item_ready.counter()
    }

    /// How many receivers are blocked waiting for an item.
    pub closed spec fn waiters(&self) -> usize {
        self.item_ready.waiters()
    }

    /// Between operations the queue mutex is free.
    pub closed spec fn wf(&self) -> bool {
        self.queue.wf() && self.queue.state() == 0
    }

    pub fn new() -> (r: Self)
        ensures
            r.wf(),
            r.items() == Seq::<T>::empty(),
            r.notify_counter() == 0,
            r.waiters() == 0,
    {
        Channel { queue: Mutex::new(VecDeque::new()), item_ready: Condvar::new() }
    }

    /// Append a message and notify one waiting receiver.
    pub fn send(&mut self, message: T)
        requires
            old(self).wf(),
        ensures
            final(self).wf(),
            final(self).items() == old(self).items().push(message),
            final(self).waiters() == old(self).waiters(),
            final(self).notify_counter() == (if old(self).waiters() > 0 {
                crate::condvar::next_generation(old(self).notify_counter())
            } else {
                old(self).notify_counter()
            }),
    {
        let guard = self.queue.lock();
        self.queue.get_mut(&guard).push_back(message);
        let _ = self.queue.unlock(guard);
        let _ = self.item_ready.notify_one();
    }

    /// Pop the front message. A receiver that finds the queue empty
    /// releases the lock and blocks on `item_ready` until a sender's
    /// notification — the external step — so the transition is enabled
    /// only while an item is queued.
    pub fn receive(&mut self) -> (message: T)
        requires
            old(self).wf(),
            old(self).items().len() > 0,
        ensures
            final(self).wf(),
            message == old(self).items().first(),
            final(self).items() == old(self).items().drop_first(),
            final(self).waiters() == old(self).waiters(),
            final(self).notify_counter() == old(self).notify_counter(),
    {
        let guard = self.queue.lock();
        let front = self.queue.get_mut(&guard).pop_front();
        let _ = self.queue.unlock(guard);
        match front {
            Some(message) => message,
            None => unreached(),
        }
    }
}

impl<T> Default for Channel<T> {
    fn default() -> (r: Self)
        ensures
            r.wf(),
            r.items() == Seq::<T>::empty(),
            r.notify_counter() == 0,
            r.waiters() == 0,
    {
        Channel::new()
    }
}

} // verus!
