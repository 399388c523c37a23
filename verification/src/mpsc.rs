use vstd::prelude::*;

verus! {

use core::marker::PhantomData;
use std::collections::VecDeque;

use crate::condvar::Condvar;
use crate::mutex::Mutex;

/// Initial capacity of the queue and of the receiver's cache.
pub const INITIAL_SIZE: usize = 32;

/// Why a send was refused: the receiver is gone.
#[derive(Clone, Copy, Debug, PartialEq, Eq, Structural)]
pub enum SendError {
    NoReceiver,
}

/// Why a receive was refused: every sender is gone and the queue is
/// drained.
#[derive(Clone, Copy, Debug, PartialEq, Eq, Structural)]
pub enum RecvError {
    NoSender,
}

/// State shared between the senders and the receiver of an unbounded
/// channel: the queue under its mutex, the condition variable that wakes a
/// blocked receiver, and the liveness counts of the two sides.
///
/// A running implementation holds this block behind a shared-ownership
/// pointer and keeps the counts in atomics; here it is an explicit value
/// that every operation takes alongside its [`Sender`] or [`Receiver`]
/// token.
pub struct Shared<T> {
    queue: Mutex<VecDeque<T>>,
    available: Condvar,
    senders: usize,
    receivers: usize,
}

/// A sending handle of the channel. Cloning it registers one more live
/// sender; [`Sender::close`] retires it.
pub struct Sender<T> {
    _marker: PhantomData<T>,
}

/// The receiving handle of the channel. It carries a private cache of
/// already-dequeued items, so a burst of messages costs one lock
/// acquisition rather than one per item.
pub struct Receiver<T> {
    cached: VecDeque<T>,
}

impl<T> Shared<T> {
    /// The items in the shared queue, front first.
    pub closed spec fn queue_items(&self) -> Seq<T> {
        self.queue.stored()@
    }

    /// How many senders are live.
    pub closed spec fn senders(&self) -> usize {
        self.senders
    }

    /// How many receivers are live.
    pub closed spec fn receivers(&self) -> usize {
        self.receivers
    }

    /// The generation counter of the receiver's condition variable.
    pub closed spec fn notify_counter(&self) -> u32 {
        self.available.counter()
    }

    /// How many receivers are blocked waiting for an item.
    pub closed spec fn waiters(&self) -> usize {
        self.available.waiters()
    }

    /// Between operations the queue mutex is free.
    pub closed spec fn wf(&self) -> bool {
        self.queue.wf() && self.queue.state() == 0
    }
}

impl<T> Receiver<T> {
    /// The items in this receiver's private cache, front first.
    pub closed spec fn cached_items(&self) -> Seq<T> {
        self.cached@
    }

    /// Everything still to be received: the cache first, then the shared
    /// queue behind it.
    pub open spec fn pending(&self, shared: &Shared<T>) -> Seq<T> {
        self.cached_items() + shared.queue_items()
    }

    /// How many items sit in the private cache.
    pub fn total_cached_items(&self) -> (n: usize)
        ensures
            n == self.cached_items().len(),
    {
        self.cached.len()
    }

    /// How many senders are live.
    pub fn total_senders(&self, shared: &Shared<T>) -> (n: usize)
        ensures
            n == shared.senders(),
    {
        shared.senders
    }

    /// Receive the next item, in the single global first-in first-out
    /// order of the channel.
    ///
    /// The fast path pops from the private cache without touching the
    /// lock. On an empty cache the shared queue is locked and popped, and
    /// when more items remain behind the popped one the whole remainder is
    /// swapped into the cache in one move, amortizing the lock over the
    /// burst. An empty channel whose senders are all gone reports
    /// [`RecvError::NoSender`]; with a sender still live a running receiver
    /// instead blocks on the condition variable until a send — the
    /// external step — so receiving is enabled here only when it will not
    /// block.
    pub fn recv(&mut self, shared: &mut Shared<T>) -> (r: Result<T, RecvError>)
        requires
            old(shared).wf(),
            old(self).pending(old(shared)).len() > 0 || old(shared).senders() == 0,
        ensures
            final(shared).wf(),
            final(shared).senders() == old(shared).senders(),
            final(shared).receivers() == old(shared).receivers(),
            final(shared).waiters() == old(shared).waiters(),
            final(shared).notify_counter() == old(shared).notify_counter(),
            if old(self).pending(old(shared)).len() > 0 {
                &&& r == Ok::<T, RecvError>(old(self).pending(old(shared)).first())
                &&& final(self).pending(final(shared)) == old(self).pending(
                    old(shared),
                ).drop_first()
            } else {
                &&& r == Err::<T, RecvError>(RecvError::NoSender)
                &&& final(self).pending(final(shared)) == old(self).pending(old(shared))
            },
    {
        if let Some(t) = self.cached.pop_front() {
            proof {
                assert(final(self).pending(old(shared)) =~= old(self).pending(
                    old(shared),
                ).drop_first());
            }
            return Ok(t);
        }
        let guard = shared.queue.lock();
        let queue = shared.queue.get_mut(&guard);
        let front = queue.pop_front();
        match front {
            Some(t) => {
                if queue.len() > 0 {
                    // Take the whole remainder in one move; the shared
                    // queue continues empty.
                    core::mem::swap(&mut self.cached, queue);
                }
                let _ = shared.queue.unlock(guard);
                proof {
                    assert(final(self).pending(final(shared)) =~= old(self).pending(
                        old(shared),
                    ).drop_first());
                }
                Ok(t)
            },
            None => {
                // Queue and cache are both empty; by the enabling
                // condition no sender is left, so this is closure, not a
                // reason to block.
                let _ = shared.queue.unlock(guard);
                proof {
                    assert(final(self).pending(final(shared)) =~= old(self).pending(old(shared)));
                }
                Err(RecvError::NoSender)
            },
        }
    }

    /// Retire the receiver. Only future sends notice: they are refused
    /// once no receiver is live.
    pub fn close(self, shared: &mut Shared<T>)
        requires
            old(shared).wf(),
            old(shared).receivers() >= 1,
        ensures
            final(shared).wf(),
            final(shared).receivers() == old(shared).receivers() - 1,
            final(shared).senders() == old(shared).senders(),
            final(shared).queue_items() == old(shared).queue_items(),
            final(shared).waiters() == old(shared).waiters(),
            final(shared).notify_counter() == old(shared).notify_counter(),
    {
        shared.receivers = shared.receivers - 1;
    }
}

impl<T> Sender<T> {
    /// How many receivers are live.
    pub fn total_receivers(&self, shared: &Shared<T>) -> (n: usize)
        ensures
            n == shared.receivers(),
    {
        shared.receivers
    }

    /// How many items sit in the shared queue, observed under the lock.
    pub fn total_queued_items(&self, shared: &mut Shared<T>) -> (n: usize)
        requires
            old(shared).wf(),
        ensures
            final(shared).wf(),
            n == old(shared).queue_items().len(),
            final(shared).queue_items() == old(shared).queue_items(),
            final(shared).senders() == old(shared).senders(),
            final(shared).receivers() == old(shared).receivers(),
            final(shared).waiters() == old(shared).waiters(),
            final(shared).notify_counter() == old(shared).notify_counter(),
    {
        let guard = shared.queue.lock();
        let n = shared.queue.get(&guard).len();
        let _ = shared.queue.unlock(guard);
        n
    }

    /// Send an item: refused with [`SendError::NoReceiver`] once no
    /// receiver is live; otherwise the item joins the back of the queue,
    /// and the receiver's condition variable is notified only when the
    /// queue was empty — a receiver already draining a backlog needs no
    /// wakeup.
    pub fn send(&self, shared: &mut Shared<T>, item: T) -> (r: Result<(), SendError>)
        requires
            old(shared).wf(),
        ensures
            final(shared).wf(),
            final(shared).senders() == old(shared).senders(),
            final(shared).receivers() == old(shared).receivers(),
            final(shared).waiters() == old(shared).waiters(),
            r is Ok <==> old(shared).receivers() >= 1,
            if old(shared).receivers() >= 1 {
                &&& r == Ok::<(), SendError>(())
                &&& final(shared).queue_items() == old(shared).queue_items().push(item)
                &&& final(shared).notify_counter() == (if old(shared).queue_items().len() == 0
                    && old(shared).waiters() > 0 {
                    crate::condvar::next_generation(old(shared).notify_counter())
                } else {
                    old(shared).notify_counter()
                })
            } else {
                &&& r == Err::<(), SendError>(SendError::NoReceiver)
                &&& final(shared).queue_items() == old(shared).queue_items()
                &&& final(shared).notify_counter() == old(shared).notify_counter()
            },
    {
        if shared.receivers == 0 {
            return Err(SendError::NoReceiver);
        }
        let guard = shared.queue.lock();
        let queue = shared.queue.get_mut(&guard);
        let was_empty = queue.len() == 0;
        queue.push_back(item);
        let _ = shared.queue.unlock(guard);
        if was_empty {
            let _ = shared.available.notify_one();
        }
        Ok(())
    }

    /// Register one more live sender and hand out its handle.
    pub fn clone(&self, shared: &mut Shared<T>) -> (r: Sender<T>)
        requires
            old(shared).wf(),
            1 <= old(shared).senders() < usize::MAX,
        ensures
            final(shared).wf(),
            final(shared).senders() == old(shared).senders() + 1,
            final(shared).receivers() == old(shared).receivers(),
            final(shared).queue_items() == old(shared).queue_items(),
            final(shared).waiters() == old(shared).waiters(),
            final(shared).notify_counter() == old(shared).notify_counter(),
    {
        shared.senders = shared.senders + 1;
        Sender { _marker: PhantomData }
    }

    /// Retire a sender. When the last one goes, every waiting receiver is
    /// notified, so it observes closure instead of blocking forever; the
    /// returned flag reports whether such a wakeup is owed.
    pub fn close(self, shared: &mut Shared<T>) -> (wake_all: bool)
        requires
            old(shared).wf(),
            old(shared).senders() >= 1,
        ensures
            final(shared).wf(),
            final(shared).senders() == old(shared).senders() - 1,
            final(shared).receivers() == old(shared).receivers(),
            final(shared).queue_items() == old(shared).queue_items(),
            final(shared).waiters() == old(shared).waiters(),
            wake_all == (old(shared).senders() == 1 && old(shared).waiters() > 0),
            final(shared).notify_counter() == (if old(shared).senders() == 1 && old(
                shared,
            ).waiters() > 0 {
                crate::condvar::next_generation(old(shared).notify_counter())
            } else {
                old(shared).notify_counter()
            }),
    {
        let remaining = shared.senders - 1;
        shared.senders = remaining;
        if remaining == 0 {
            shared.available.notify_all()
        } else {
            false
        }
    }
}

/// Create an unbounded channel: its shared state, one sender and one
/// receiver.
pub fn unbounded<T>() -> (r: (Shared<T>, Sender<T>, Receiver<T>))
    ensures
        r.0.wf(),
        r.0.queue_items() == Seq::<T>::empty(),
        r.0.senders() == 1,
        r.0.receivers() == 1,
        r.0.waiters() == 0,
        r.0.notify_counter() == 0,
        r.2.cached_items() == Seq::<T>::empty(),
{
    (
        Shared::default(),
        Sender { _marker: PhantomData },
        Receiver { cached: VecDeque::with_capacity(INITIAL_SIZE) },
    )
}

impl<T> Default for Shared<T> {
    /// The state of a fresh channel: an empty queue and one live handle on
    /// each side.
    fn default() -> (r: Self)
        ensures
            r.wf(),
            r.queue_items() == Seq::<T>::empty(),
            r.senders() == 1,
            r.receivers() == 1,
            r.waiters() == 0,
            r.notify_counter() == 0,
    {
        Shared {
            queue: Mutex::new(VecDeque::with_capacity(INITIAL_SIZE)),
            available: Condvar::new(),
            senders: 1,
            receivers: 1,
        }
    }
}

// ---------------------------------------------------------------------------
// Whole-history reasoning
//
// The contracts above pin each call; the model below runs whole histories
// of sends and receives to state conservation: nothing is lost and nothing
// is duplicated, in the one global first-in first-out order.
// ---------------------------------------------------------------------------

/// One channel operation of a history.
pub enum ChanOp<T> {
    Send(T),
    Recv,
}

/// The modeled channel: what is still pending, and what the receiver has
/// taken out so far.
pub struct ChanState<T> {
    pub pending: Seq<T>,
    pub received: Seq<T>,
}

/// Receiving is enabled only while something is pending, exactly as
/// `recv`'s enabling condition demands on a drained channel.
pub open spec fn chan_enabled<T>(s: ChanState<T>, op: ChanOp<T>) -> bool {
    match op {
        ChanOp::Send(item) => true,
        ChanOp::Recv => s.pending.len() > 0,
    }
}

pub open spec fn chan_step<T>(s: ChanState<T>, op: ChanOp<T>) -> ChanState<T> {
    match op {
        ChanOp::Send(item) => ChanState { pending: s.pending.push(item), ..s },
        ChanOp::Recv => ChanState {
            pending: s.pending.drop_first(),
            received: s.received.push(s.pending.first()),
        },
    }
}

pub open spec fn chan_history_valid<T>(s: ChanState<T>, ops: Seq<ChanOp<T>>) -> bool
    decreases ops.len(),
{
    ops.len() == 0 || (chan_enabled(s, ops.first()) && chan_history_valid(
        chan_step(s, ops.first()),
        ops.drop_first(),
    ))
}

pub open spec fn chan_history_run<T>(s: ChanState<T>, ops: Seq<ChanOp<T>>) -> ChanState<T>
    decreases ops.len(),
{
    if ops.len() == 0 {
        s
    } else {
        chan_history_run(chan_step(s, ops.first()), ops.drop_first())
    }
}

/// The values a history sends, in order.
pub open spec fn sent_values<T>(ops: Seq<ChanOp<T>>) -> Seq<T>
    decreases ops.len(),
{
    if ops.len() == 0 {
        Seq::empty()
    } else {
        (match ops.first() {
            ChanOp::Send(item) => seq![item],
            ChanOp::Recv => seq![],
        }) + sent_values(ops.drop_first())
    }
}

/// Conservation: however sends and receives interleave, what has been
/// received followed by what is still pending is exactly what was pending
/// at the start followed by everything sent, in order — no item is lost,
/// duplicated, or reordered past another.
pub proof fn lemma_no_loss_no_duplication<T>(s: ChanState<T>, ops: Seq<ChanOp<T>>)
    requires
        chan_history_valid(s, ops),
    ensures
        chan_history_run(s, ops).received + chan_history_run(s, ops).pending =~= s.received
            + s.pending + sent_values(ops),
    decreases ops.len(),
{
    if ops.len() > 0 {
        let s2 = chan_step(s, ops.first());
        lemma_no_loss_no_duplication(s2, ops.drop_first());
        match ops.first() {
            ChanOp::Send(item) => {
                assert(s2.received + s2.pending =~= s.received + s.pending + seq![item]);
            },
            ChanOp::Recv => {
                assert(s2.received + s2.pending =~= s.received + s.pending);
            },
        }
    }
}

} // verus!
