use vstd::prelude::*;

verus! {

/// Iterations a contender spins re-checking the word before it commits to
/// blocking.
pub const SPIN_LIMIT: u32 = 100;

/// A blocking mutual-exclusion lock.
///
/// The lock is a state machine over one word with three values:
///
/// | word | meaning                     |
/// |------|-----------------------------|
/// | 0    | unlocked                    |
/// | 1    | locked, no waiters          |
/// | 2    | locked, waiters present     |
///
/// A running implementation acquires with a compare-and-swap 0 to 1 (acquire
/// ordering); on failure it follows [`lock_contended`], which spins up to
/// [`SPIN_LIMIT`] times and then marks the word 2 and blocks on a futex-style
/// wait keyed on the word with expected value 2. Release swaps the word to 0
/// (release ordering) and wakes one waiter only if the prior value was 2:
/// waking exactly one is enough, because the next holder wakes the next
/// waiter in turn. The word transitions and the wakeup decisions are the
/// verified model here; the blocking itself is the external futex service.
pub struct Mutex<T> {
    state: u32,
    value: T,
}

/// Token witnessing that the mutex is held.
///
/// Access to the protected value goes through [`Mutex::get`] and
/// [`Mutex::get_mut`], which demand the token; [`Mutex::unlock`] consumes it,
/// so a critical section is bracketed by the token's lifetime.
pub struct MutexGuard {
    _private: (),
}

/// What a contender does after an acquisition attempt failed with the given
/// observed word value. Produced by [`lock_contended`].
#[derive(Clone, Copy, Debug, PartialEq, Eq, Structural)]
pub enum LockAction {
    /// Re-check the word after a brief busy-wait.
    Spin,
    /// Compare-and-swap the word from 1 to 2, then block on the word with
    /// expected value 2.
    MarkContendedAndWait,
    /// Block on the word with expected value 2.
    Wait,
}

/// The decision table of the contended acquisition path: after a failed
/// compare-and-swap from 0 to 1 that observed `observed`, a contender with
/// `spin_count` spins behind it either spins again (cheap reclaim while the
/// holder may release soon), or marks the word contended and blocks.
pub fn lock_contended(observed: u32, spin_count: u32) -> (action: LockAction)
    requires
        observed == 1 || observed == 2,
    ensures
        action == (if observed == 1 && spin_count < SPIN_LIMIT {
            LockAction::Spin
        } else if observed == 1 {
            LockAction::MarkContendedAndWait
        } else {
            LockAction::Wait
        }),
{
    if observed == 1 {
        if spin_count < SPIN_LIMIT {
            LockAction::Spin
        } else {
            LockAction::MarkContendedAndWait
        }
    } else {
        LockAction::Wait
    }
}

impl<T> Mutex<T> {
    /// The lock word: 0 unlocked, 1 locked, 2 locked with waiters present.
    pub closed spec fn state(&self) -> u32 {
        self.state
    }

    /// The protected value.
    pub closed spec fn stored(&self) -> T {
        self.value
    }

    /// The word never leaves its three-valued encoding.
    pub open spec fn wf(&self) -> bool {
        self.state() <= 2
    }

    /// Whether some thread holds the lock.
    pub open spec fn is_locked(&self) -> bool {
        self.state() >= 1
    }

    pub fn new(value: T) -> (r: Self)
        ensures
            r.wf(),
            r.state() == 0,
            r.stored() == value,
    {
        Mutex { state: 0, value }
    }

    /// The load at the head of the acquisition loop: the current word.
    pub fn observe(&self) -> (s: u32)
        ensures
            s == self.state(),
    {
        self.state
    }

    /// Acquire the lock: the compare-and-swap from 0 to 1.
    ///
    /// A running caller that observes a nonzero word instead follows
    /// [`lock_contended`] until this transition succeeds; the transition
    /// itself is only enabled on an unlocked word.
    pub fn lock(&mut self) -> (g: MutexGuard)
        requires
            old(self).wf(),
            old(self).state() == 0,
        ensures
            final(self).wf(),
            final(self).state() == 1,
            final(self).stored() == old(self).stored(),
    {
        self.state = 1;
        MutexGuard { _private: () }
    }

    /// The step a contender performs before blocking: compare-and-swap the
    /// word from 1 to 2, so the holder knows waiters are present. The swap
    /// is best-effort, exactly as in the running protocol: any other
    /// observed value leaves the word unchanged.
    pub fn mark_contended(&mut self)
        requires
            old(self).wf(),
        ensures
            final(self).wf(),
            final(self).state() == (if old(self).state() == 1 {
                2u32
            } else {
                old(self).state()
            }),
            final(self).stored() == old(self).stored(),
    {
        if self.state == 1 {
            self.state = 2;
        }
    }

    /// Release the lock: swap the word to 0 and report whether a waiter must
    /// be woken, which is the case exactly when the prior value was 2.
    pub fn unlock(&mut self, _guard: MutexGuard) -> (wake_one: bool)
        requires
            old(self).wf(),
            old(self).is_locked(),
        ensures
            final(self).wf(),
            final(self).state() == 0,
            final(self).stored() == old(self).stored(),
            wake_one == (old(self).state() == 2),
    {
        let prior = self.state;
        self.state = 0;
        prior == 2
    }

    /// Read the protected value inside the critical section.
    pub fn get(&self, _guard: &MutexGuard) -> (v: &T)
        requires
            self.is_locked(),
        ensures
            *v == self.stored(),
    {
        &self.value
    }

    /// Mutate the protected value inside the critical section.
    pub fn get_mut(&mut self, _guard: &MutexGuard) -> (v: &mut T)
        requires
            old(self).is_locked(),
        ensures
            *v == old(self).stored(),
            final(self).stored() == *final(v),
            final(self).state() == old(self).state(),
    {
        &mut self.value
    }
}

// ---------------------------------------------------------------------------
// Whole-schedule reasoning
//
// The contracts above fix what each transition does to the lock word. To
// state what mutual exclusion buys a program, the model below describes a
// whole multi-threaded schedule: which thread holds the lock, and a shared
// counter that threads increment only while holding it. Exclusivity is the
// enabling condition of the increment event, which is exactly what the
// word's 0-to-1 transition grants a running thread.
// ---------------------------------------------------------------------------

/// One event of a schedule: thread `t` acquires the lock, increments the
/// shared counter under it, or releases it.
pub enum LockEvent {
    Acquire(int),
    Increment(int),
    Release(int),
}

/// The modeled system: the current holder, if any, and the shared counter.
pub struct LockSystem {
    pub holder: Option<int>,
    pub counter: int,
}

/// The thread an event belongs to.
pub open spec fn event_thread(e: LockEvent) -> int {
    match e {
        LockEvent::Acquire(t) => t,
        LockEvent::Increment(t) => t,
        LockEvent::Release(t) => t,
    }
}

pub open spec fn is_increment(e: LockEvent) -> bool {
    e is Increment
}

/// When an event may fire: acquiring needs a free lock, and only the holder
/// may touch the counter or release. At most one thread holds the lock in
/// any reachable state, because `holder` is a single value.
pub open spec fn event_enabled(s: LockSystem, e: LockEvent) -> bool {
    match e {
        LockEvent::Acquire(t) => s.holder is None,
        LockEvent::Increment(t) => s.holder == Some(t),
        LockEvent::Release(t) => s.holder == Some(t),
    }
}

pub open spec fn event_step(s: LockSystem, e: LockEvent) -> LockSystem {
    match e {
        LockEvent::Acquire(t) => LockSystem { holder: Some(t), counter: s.counter },
        LockEvent::Increment(t) => LockSystem { holder: s.holder, counter: s.counter + 1 },
        LockEvent::Release(t) => LockSystem { holder: None, counter: s.counter },
    }
}

/// A schedule is valid when every event fires in a state that enables it.
pub open spec fn valid_schedule(s: LockSystem, es: Seq<LockEvent>) -> bool
    decreases es.len(),
{
    es.len() == 0 || (event_enabled(s, es.first()) && valid_schedule(
        event_step(s, es.first()),
        es.drop_first(),
    ))
}

pub open spec fn run_schedule(s: LockSystem, es: Seq<LockEvent>) -> LockSystem
    decreases es.len(),
{
    if es.len() == 0 {
        s
    } else {
        run_schedule(event_step(s, es.first()), es.drop_first())
    }
}

/// Increment events in a schedule.
pub open spec fn count_increments(es: Seq<LockEvent>) -> int
    decreases es.len(),
{
    if es.len() == 0 {
        0
    } else {
        (if is_increment(es.first()) {
            1int
        } else {
            0int
        }) + count_increments(es.drop_first())
    }
}

/// Increment events a single thread contributes.
pub open spec fn count_increments_by(es: Seq<LockEvent>, t: int) -> int
    decreases es.len(),
{
    if es.len() == 0 {
        0
    } else {
        (if is_increment(es.first()) && event_thread(es.first()) == t {
            1int
        } else {
            0int
        }) + count_increments_by(es.drop_first(), t)
    }
}

/// Increment events of the threads 0 up to `n`, bucket by bucket.
pub open spec fn count_increments_below(es: Seq<LockEvent>, n: int) -> int
    decreases n,
{
    if n <= 0 {
        0
    } else {
        count_increments_below(es, n - 1) + count_increments_by(es, n - 1)
    }
}

/// The counter counts exactly the increment events of a valid schedule:
/// no update is lost and none is duplicated, whatever the interleaving.
pub proof fn lemma_counter_counts_increments(s: LockSystem, es: Seq<LockEvent>)
    requires
        valid_schedule(s, es),
    ensures
        run_schedule(s, es).counter == s.counter + count_increments(es),
    decreases es.len(),
{
    if es.len() > 0 {
        lemma_counter_counts_increments(event_step(s, es.first()), es.drop_first());
    }
}

proof fn lemma_count_below_empty(es: Seq<LockEvent>, n: int)
    requires
        es.len() == 0,
    ensures
        count_increments_below(es, n) == 0,
    decreases n,
{
    if n > 0 {
        lemma_count_below_empty(es, n - 1);
    }
}

proof fn lemma_count_below_step(es: Seq<LockEvent>, n: int)
    requires
        es.len() > 0,
        n >= 0,
    ensures
        count_increments_below(es, n) == count_increments_below(es.drop_first(), n) + (
        if is_increment(es.first()) && 0 <= event_thread(es.first()) < n {
            1int
        } else {
            0int
        }),
    decreases n,
{
    if n > 0 {
        lemma_count_below_step(es, n - 1);
    }
}

/// Every increment belongs to exactly one thread: the per-thread buckets of
/// the threads 0 up to `n` partition the increments of a schedule whose
/// events all come from those threads.
pub proof fn lemma_increments_partition(es: Seq<LockEvent>, n: int)
    requires
        n >= 0,
        forall|i: int| 0 <= i < es.len() ==> 0 <= event_thread(#[trigger] es[i]) < n,
    ensures
        count_increments(es) == count_increments_below(es, n),
    decreases es.len(),
{
    if es.len() == 0 {
        lemma_count_below_empty(es, n);
    } else {
        lemma_count_below_step(es, n);
        assert(es[0] == es.first());
        assert(forall|i: int|
            0 <= i < es.drop_first().len() ==> es.drop_first()[i] == es[i + 1]);
        lemma_increments_partition(es.drop_first(), n);
    }
}

proof fn lemma_equal_buckets_total(es: Seq<LockEvent>, n: int, m: int)
    requires
        n >= 0,
        forall|t: int| 0 <= t < n ==> #[trigger] count_increments_by(es, t) == m,
    ensures
        count_increments_below(es, n) == n * m,
    decreases n,
{
    if n == 0 {
        assert(0int * m == 0) by (nonlinear_arith);
    } else {
        lemma_equal_buckets_total(es, n - 1, m);
        assert((n - 1) * m + m == n * m) by (nonlinear_arith);
    }
}

/// Mutual exclusion pays off: when `n` threads each perform `m` protected
/// increments on the shared counter, in any valid interleaving, the final
/// counter is exactly `n * m` above its initial value.
pub proof fn lemma_protected_increments_sum(s: LockSystem, es: Seq<LockEvent>, n: int, m: int)
    requires
        valid_schedule(s, es),
        n >= 0,
        forall|i: int| 0 <= i < es.len() ==> 0 <= event_thread(#[trigger] es[i]) < n,
        forall|t: int| 0 <= t < n ==> #[trigger] count_increments_by(es, t) == m,
    ensures
        run_schedule(s, es).counter == s.counter + n * m,
{
    lemma_counter_counts_increments(s, es);
    lemma_increments_partition(es, n);
    lemma_equal_buckets_total(es, n, m);
}

} // verus!
