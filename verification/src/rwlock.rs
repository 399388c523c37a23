use vstd::prelude::*;

verus! {

/// A reader-writer lock with writer-starvation avoidance.
///
/// The primary word encodes the whole locking state:
///
/// | word                | meaning                                        |
/// |---------------------|------------------------------------------------|
/// | even `2r`           | `r` readers hold the lock, no writer pending   |
/// | odd `2r + 1`        | `r` readers hold the lock, a writer is waiting |
/// | `u32::MAX`          | write-locked                                   |
///
/// Readers may acquire while the word is even; an odd word turns new readers
/// away, which is what keeps a waiting writer from starving behind a stream
/// of late arrivals. A secondary counter, `write_wake_counter`, is bumped
/// solely to wake blocked writers, so reader-driven wakeups on the primary
/// word are never confused with writer wakeups.
///
/// A running implementation performs the transitions below with
/// compare-and-swap loops (acquire ordering on acquisition, release on the
/// guard drops) and blocks on a futex-style wait: readers on the primary
/// word, writers on `write_wake_counter`. The word transitions and wakeup
/// decisions are the verified model here; the blocking itself is the
/// external futex service, driven by [`read_step`] and [`write_step`].
pub struct RwLock<T> {
    state: u32,
    write_wake_counter: u32,
    value: T,
}

/// Token witnessing one shared (read) acquisition of the lock.
pub struct ReadGuard {
    _private: (),
}

/// Token witnessing the exclusive (write) acquisition of the lock.
pub struct WriteGuard {
    _private: (),
}

/// What a reader does after observing the primary word. Produced by
/// [`read_step`].
#[derive(Clone, Copy, Debug, PartialEq, Eq, Structural)]
pub enum ReadAction {
    /// Compare-and-swap the word up by 2 to join the readers.
    TryAcquire,
    /// Block on the primary word with the observed value as expected, then
    /// re-observe.
    Wait,
}

/// What a writer does after observing the primary word. Produced by
/// [`write_step`].
#[derive(Clone, Copy, Debug, PartialEq, Eq, Structural)]
pub enum WriteAction {
    /// Compare-and-swap the observed word to `u32::MAX` to take the lock.
    TryAcquire,
    /// Compare-and-swap the word up by 1: set the low bit so no new reader
    /// joins, then re-observe.
    MarkWaiting,
    /// Read `write_wake_counter`, re-observe the word, and if it is still
    /// held block on `write_wake_counter` with the counter value as
    /// expected.
    CheckWakeCounterAndWait,
}

/// The decision table of the reader acquisition loop: join while the word is
/// even, block while it is odd. The even value `u32::MAX - 3` is the reader
/// limit; observing it is the unrecoverable "too many readers" fault, which
/// the precondition excludes.
pub fn read_step(observed: u32) -> (action: ReadAction)
    requires
        observed % 2 == 1 || observed < u32::MAX - 3,
    ensures
        action == (if observed % 2 == 0 {
            ReadAction::TryAcquire
        } else {
            ReadAction::Wait
        }),
{
    if observed % 2 == 0 {
        ReadAction::TryAcquire
    } else {
        ReadAction::Wait
    }
}

/// The decision table of the writer acquisition loop: take the lock while at
/// most the waiting bit is set, otherwise first shut out new readers by
/// making the word odd, then block on the writer wake counter.
pub fn write_step(observed: u32) -> (action: WriteAction)
    ensures
        action == (if observed <= 1 {
            WriteAction::TryAcquire
        } else if observed % 2 == 0 {
            WriteAction::MarkWaiting
        } else {
            WriteAction::CheckWakeCounterAndWait
        }),
{
    if observed <= 1 {
        WriteAction::TryAcquire
    } else if observed % 2 == 0 {
        WriteAction::MarkWaiting
    } else {
        WriteAction::CheckWakeCounterAndWait
    }
}

impl<T> RwLock<T> {
    /// The primary word.
    pub closed spec fn state(&self) -> u32 {
        self.state
    }

    /// The counter bumped solely to wake blocked writers.
    pub closed spec fn wake_counter(&self) -> u32 {
        self.write_wake_counter
    }

    /// The protected value.
    pub closed spec fn stored(&self) -> T {
        self.value
    }

    /// Whether a writer holds the lock.
    pub open spec fn is_write_locked(&self) -> bool {
        self.state() == u32::MAX
    }

    /// How many readers hold the lock.
    pub open spec fn readers(&self) -> u32 {
        if self.is_write_locked() {
            0
        } else {
            self.state() / 2
        }
    }

    /// Whether a writer has set the low bit to shut out new readers.
    pub open spec fn writer_pending(&self) -> bool {
        !self.is_write_locked() && self.state() % 2 == 1
    }

    pub fn new(value: T) -> (r: Self)
        ensures
            r.state() == 0,
            r.wake_counter() == 0,
            r.stored() == value,
    {
        RwLock { state: 0, write_wake_counter: 0, value }
    }

    /// The load at the head of the acquisition loops: the current word.
    pub fn observe(&self) -> (s: u32)
        ensures
            s == self.state(),
    {
        self.state
    }

    /// The load a blocked writer performs before sleeping: the value of the
    /// writer wake counter it hands to the futex wait as expected.
    pub fn observe_wake_counter(&self) -> (c: u32)
        ensures
            c == self.wake_counter(),
    {
        self.write_wake_counter
    }

    /// Acquire the lock shared: the compare-and-swap of the word up by 2,
    /// enabled while the word is even. A running reader that observes an odd
    /// word blocks instead ([`read_step`]); one that observes the reader
    /// limit traps, which the precondition excludes.
    pub fn read(&mut self) -> (g: ReadGuard)
        requires
            old(self).state() % 2 == 0,
            old(self).state() < u32::MAX - 3,
        ensures
            final(self).state() == old(self).state() + 2,
            final(self).readers() == old(self).readers() + 1,
            !final(self).is_write_locked(),
            final(self).wake_counter() == old(self).wake_counter(),
            final(self).stored() == old(self).stored(),
            rw_enabled(old(self).state() as int, RwEvent::AcquireRead),
            final(self).state() as int == rw_step(old(self).state() as int, RwEvent::AcquireRead),
    {
        self.state = self.state + 2;
        ReadGuard { _private: () }
    }

    /// Acquire the lock exclusively: the compare-and-swap of the word to
    /// `u32::MAX`, enabled while the word is at most 1 (unlocked, with at
    /// most this writer's own waiting bit set). A running writer that
    /// observes a larger word follows [`write_step`] instead.
    pub fn write(&mut self) -> (g: WriteGuard)
        requires
            old(self).state() <= 1,
        ensures
            final(self).state() == u32::MAX,
            final(self).is_write_locked(),
            final(self).readers() == 0,
            final(self).wake_counter() == old(self).wake_counter(),
            final(self).stored() == old(self).stored(),
            rw_enabled(old(self).state() as int, RwEvent::AcquireWrite),
            final(self).state() as int == rw_step(old(self).state() as int, RwEvent::AcquireWrite),
    {
        self.state = u32::MAX;
        WriteGuard { _private: () }
    }

    /// The step a blocked writer performs to shut out new readers: the
    /// compare-and-swap of the word up by 1, making it odd while readers
    /// still hold the lock.
    pub fn mark_writer_waiting(&mut self)
        requires
            old(self).state() % 2 == 0,
            2 <= old(self).state() < u32::MAX - 1,
        ensures
            final(self).state() == old(self).state() + 1,
            final(self).writer_pending(),
            final(self).readers() == old(self).readers(),
            final(self).wake_counter() == old(self).wake_counter(),
            final(self).stored() == old(self).stored(),
            rw_enabled(old(self).state() as int, RwEvent::MarkWriterWaiting),
            final(self).state() as int == rw_step(
                old(self).state() as int,
                RwEvent::MarkWriterWaiting,
            ),
    {
        self.state = self.state + 1;
    }

    /// Release one shared acquisition: the word drops by 2. When the prior
    /// word was exactly 3 — the last reader departing while a writer is
    /// waiting — the writer wake counter is bumped and the caller must wake
    /// one writer on it, which the returned flag reports.
    pub fn unlock_read(&mut self, _guard: ReadGuard) -> (wake_writer: bool)
        requires
            old(self).state() >= 2,
            !old(self).is_write_locked(),
        ensures
            final(self).state() == old(self).state() - 2,
            final(self).readers() == old(self).readers() - 1,
            wake_writer == (old(self).state() == 3),
            final(self).wake_counter() == (if old(self).state() == 3 {
                if old(self).wake_counter() == u32::MAX {
                    0u32
                } else {
                    (old(self).wake_counter() + 1) as u32
                }
            } else {
                old(self).wake_counter()
            }),
            final(self).stored() == old(self).stored(),
            rw_enabled(old(self).state() as int, RwEvent::ReleaseRead),
            final(self).state() as int == rw_step(old(self).state() as int, RwEvent::ReleaseRead),
    {
        let prior = self.state;
        self.state = self.state - 2;
        if prior == 3 {
            self.write_wake_counter = if self.write_wake_counter == u32::MAX {
                0
            } else {
                self.write_wake_counter + 1
            };
            true
        } else {
            false
        }
    }

    /// Release the exclusive acquisition: the word returns to 0 and the
    /// writer wake counter drops by 1, undoing the pending bump. A running
    /// implementation then wakes one writer on the wake counter and all
    /// readers on the primary word, unconditionally.
    pub fn unlock_write(&mut self, _guard: WriteGuard)
        requires
            old(self).is_write_locked(),
        ensures
            final(self).state() == 0,
            final(self).readers() == 0,
            final(self).wake_counter() == (if old(self).wake_counter() == 0 {
                u32::MAX
            } else {
                (old(self).wake_counter() - 1) as u32
            }),
            final(self).stored() == old(self).stored(),
            rw_enabled(old(self).state() as int, RwEvent::ReleaseWrite),
            final(self).state() as int == rw_step(old(self).state() as int, RwEvent::ReleaseWrite),
    {
        self.state = 0;
        self.write_wake_counter = if self.write_wake_counter == 0 {
            u32::MAX
        } else {
            self.write_wake_counter - 1
        };
    }

    /// Read the protected value under a shared acquisition.
    pub fn get(&self, _guard: &ReadGuard) -> (v: &T)
        requires
            self.readers() >= 1,
        ensures
            *v == self.stored(),
    {
        &self.value
    }

    /// Read the protected value under the exclusive acquisition.
    pub fn get_write(&self, _guard: &WriteGuard) -> (v: &T)
        requires
            self.is_write_locked(),
        ensures
            *v == self.stored(),
    {
        &self.value
    }

    /// Mutate the protected value under the exclusive acquisition.
    pub fn get_mut(&mut self, _guard: &WriteGuard) -> (v: &mut T)
        requires
            old(self).is_write_locked(),
        ensures
            *v == old(self).stored(),
            final(self).stored() == *final(v),
            final(self).state() == old(self).state(),
            final(self).wake_counter() == old(self).wake_counter(),
    {
        &mut self.value
    }
}

// ---------------------------------------------------------------------------
// Whole-schedule reasoning
//
// The model below describes the primary word across a whole multi-threaded
// schedule, so that the sharing and fairness guarantees can be stated over
// every interleaving rather than one call at a time. The word is carried as
// an `int` confined to the `u32` range.
// ---------------------------------------------------------------------------

/// The write-locked sentinel of the primary word.
pub open spec fn write_locked_word() -> int {
    u32::MAX as int
}

/// One transition of the primary word.
pub enum RwEvent {
    AcquireRead,
    ReleaseRead,
    MarkWriterWaiting,
    AcquireWrite,
    ReleaseWrite,
}

/// When a transition may fire, mirroring the preconditions of the operations
/// above: readers join only while the word is even and below the reader
/// limit; only a writer transition can ever clear the waiting bit.
pub open spec fn rw_enabled(s: int, e: RwEvent) -> bool {
    match e {
        RwEvent::AcquireRead => s % 2 == 0 && 0 <= s < write_locked_word() - 3,
        RwEvent::ReleaseRead => 2 <= s < write_locked_word(),
        RwEvent::MarkWriterWaiting => s % 2 == 0 && 2 <= s < write_locked_word() - 1,
        RwEvent::AcquireWrite => 0 <= s <= 1,
        RwEvent::ReleaseWrite => s == write_locked_word(),
    }
}

pub open spec fn rw_step(s: int, e: RwEvent) -> int {
    match e {
        RwEvent::AcquireRead => s + 2,
        RwEvent::ReleaseRead => s - 2,
        RwEvent::MarkWriterWaiting => s + 1,
        RwEvent::AcquireWrite => write_locked_word(),
        RwEvent::ReleaseWrite => 0,
    }
}

/// A schedule is valid when every transition fires in a state that enables
/// it.
pub open spec fn rw_valid_schedule(s: int, es: Seq<RwEvent>) -> bool
    decreases es.len(),
{
    es.len() == 0 || (rw_enabled(s, es.first()) && rw_valid_schedule(
        rw_step(s, es.first()),
        es.drop_first(),
    ))
}

pub open spec fn rw_run_schedule(s: int, es: Seq<RwEvent>) -> int
    decreases es.len(),
{
    if es.len() == 0 {
        s
    } else {
        rw_run_schedule(rw_step(s, es.first()), es.drop_first())
    }
}

/// How many readers a word value encodes.
pub open spec fn readers_of(s: int) -> int {
    if s == write_locked_word() {
        0
    } else {
        s / 2
    }
}

/// A schedule of `k` consecutive reader acquisitions.
pub open spec fn read_burst(k: nat) -> Seq<RwEvent> {
    Seq::new(k, |i: int| RwEvent::AcquireRead)
}

/// Arbitrarily many readers share the lock while no writer is pending: from
/// any even word with room for them, `k` consecutive reader acquisitions are
/// all enabled, and afterwards all `k` readers hold the lock at once.
pub proof fn lemma_readers_share(s: int, k: nat)
    requires
        s % 2 == 0,
        0 <= s,
        s + 2 * k < write_locked_word() - 3,
    ensures
        rw_valid_schedule(s, read_burst(k)),
        rw_run_schedule(s, read_burst(k)) == s + 2 * k,
        readers_of(rw_run_schedule(s, read_burst(k))) == readers_of(s) + k,
    decreases k,
{
    if k == 0 {
        assert(read_burst(0).len() == 0);
    } else {
        let es = read_burst(k);
        assert(es.first() == RwEvent::AcquireRead);
        assert(es.drop_first() =~= read_burst((k - 1) as nat));
        lemma_readers_share(s + 2, (k - 1) as nat);
    }
}

/// A writer excludes everyone: while the word holds the write-locked
/// sentinel, no reader acquisition, no reader release and no second writer
/// acquisition is enabled — only the holder's own release is.
pub proof fn lemma_writer_excludes(s: int)
    requires
        s == write_locked_word(),
    ensures
        !rw_enabled(s, RwEvent::AcquireRead),
        !rw_enabled(s, RwEvent::ReleaseRead),
        !rw_enabled(s, RwEvent::AcquireWrite),
        !rw_enabled(s, RwEvent::MarkWriterWaiting),
        rw_enabled(s, RwEvent::ReleaseWrite),
{
}

/// A schedule made of reader events only.
pub open spec fn readers_only(es: Seq<RwEvent>) -> bool {
    forall|i: int|
        0 <= i < es.len() ==> (es[i] == RwEvent::AcquireRead || es[i] == RwEvent::ReleaseRead)
}

/// Writer-starvation avoidance: once a waiting writer has made the word odd,
/// no schedule of reader events alone can ever contain a reader acquisition —
/// departing readers keep the word odd, and a reader that arrives after the
/// writer finds acquisition disabled until a writer transition intervenes.
pub proof fn lemma_waiting_writer_blocks_new_readers(s: int, es: Seq<RwEvent>)
    requires
        s % 2 == 1,
        s != write_locked_word(),
        readers_only(es),
        rw_valid_schedule(s, es),
    ensures
        forall|i: int| 0 <= i < es.len() ==> es[i] != RwEvent::AcquireRead,
        rw_run_schedule(s, es) % 2 == 1,
    decreases es.len(),
{
    if es.len() > 0 {
        let e = es.first();
        assert(e == es[0]);
        assert(e != RwEvent::AcquireRead);
        assert(e == RwEvent::ReleaseRead);
        lemma_waiting_writer_blocks_new_readers(s - 2, es.drop_first());
        assert forall|i: int| 0 <= i < es.len() implies es[i] != RwEvent::AcquireRead by {
            if i > 0 {
                assert(es[i] == es.drop_first()[i - 1]);
            }
        }
    }
}

} // verus!
