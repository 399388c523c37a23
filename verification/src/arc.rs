use vstd::prelude::*;

verus! {

use core::marker::PhantomData;

/// The shared allocation behind a reference-counted pointer: two counters
/// and the payload cell.
///
/// `data_ref_count` counts the strong handles ([`Arc`]); `alloc_ref_count`
/// counts the weak handles ([`Weak`]) plus one extra unit while any strong
/// handle exists. The payload is constructed once and destroyed exactly
/// once: when `data_ref_count` falls to 0, which also releases the extra
/// weak unit. The allocation itself is free once `alloc_ref_count` falls
/// to 0.
///
/// A running implementation keeps this block on the heap and updates the
/// counters with atomic read-modify-write operations — the decrements that
/// may trigger destruction use release ordering, paired with an acquire
/// fence on the destroying side. Here the block is an explicit value and
/// every handle operation is a verified transition on it; the handles are
/// tokens that the operations consume and produce.
pub struct ArcData<T> {
    data_ref_count: usize,
    alloc_ref_count: usize,
    data: Option<T>,
}

/// A strong handle: it keeps the payload alive.
pub struct Arc<T> {
    _marker: PhantomData<T>,
}

/// A weak handle: it keeps the allocation alive, but not the payload, and
/// can be upgraded to a strong handle only while the payload still lives.
pub struct Weak<T> {
    _marker: PhantomData<T>,
}

impl<T> ArcData<T> {
    /// How many strong handles exist.
    pub closed spec fn strong_count(&self) -> usize {
        self.data_ref_count
    }

    /// The weak-side counter: weak handles, plus one while any strong
    /// handle exists.
    pub closed spec fn alloc_count(&self) -> usize {
        self.alloc_ref_count
    }

    /// How many weak handles exist.
    pub open spec fn weak_count(&self) -> int {
        self.alloc_count() - (if self.strong_count() >= 1 {
            1int
        } else {
            0int
        })
    }

    /// The payload cell.
    pub closed spec fn payload(&self) -> Option<T> {
        self.data
    }

    /// The counting invariant: the payload lives exactly as long as strong
    /// handles exist, living strong handles pin one weak unit, and the
    /// weak-side counter stays clear of `usize::MAX`, which `get_mut`
    /// reserves as its exclusivity-check sentinel.
    pub open spec fn wf(&self) -> bool {
        &&& self.strong_count() >= 1 <==> self.payload() is Some
        &&& self.strong_count() >= 1 ==> self.alloc_count() >= 1
        &&& self.alloc_count() < usize::MAX
    }

    /// The handle-level state this block encodes, in the vocabulary of the
    /// whole-history model below: each operation's contract states that it
    /// performs exactly one [`ref_op_step`] on it.
    pub open spec fn handle_model(&self) -> HandleModel {
        HandleModel {
            strong: self.strong_count() as nat,
            weak: self.weak_count() as nat,
            alive: self.payload() is Some,
        }
    }

    /// The strong count, as the running block would report it.
    pub fn get_data_ref_count(&self) -> (r: usize)
        ensures
            r == self.strong_count(),
    {
        self.data_ref_count
    }

    /// The weak-side count, as the running block would report it.
    pub fn get_alloc_ref_count(&self) -> (r: usize)
        ensures
            r == self.alloc_count(),
    {
        self.alloc_ref_count
    }
}

impl<T> Arc<T> {
    /// Allocate a block holding `data` with one strong handle and its
    /// pinned weak unit.
    pub fn new(data: T) -> (r: (ArcData<T>, Arc<T>))
        ensures
            r.0.wf(),
            r.0.strong_count() == 1,
            r.0.alloc_count() == 1,
            r.0.weak_count() == 0,
            r.0.payload() == Some(data),
    {
        (
            ArcData { data_ref_count: 1, alloc_ref_count: 1, data: Some(data) },
            Arc { _marker: PhantomData },
        )
    }

    /// Clone a strong handle: the strong count goes one up. A running
    /// implementation aborts the process when the count has passed half the
    /// representable range — overflow is corruption, not an error — so the
    /// transition is only enabled below that boundary.
    pub fn clone(&self, d: &mut ArcData<T>) -> (r: Arc<T>)
        requires
            old(d).wf(),
            old(d).strong_count() >= 1,
            old(d).strong_count() <= usize::MAX / 2,
        ensures
            final(d).wf(),
            final(d).strong_count() == old(d).strong_count() + 1,
            final(d).alloc_count() == old(d).alloc_count(),
            final(d).weak_count() == old(d).weak_count(),
            final(d).payload() == old(d).payload(),
            final(d).handle_model() == ref_op_step(old(d).handle_model(), RefOp::CloneStrong),
    {
        d.data_ref_count = d.data_ref_count + 1;
        Arc { _marker: PhantomData }
    }

    /// Create a weak handle: the weak-side counter goes one up. A running
    /// implementation loops while the counter holds the `get_mut` sentinel
    /// and traps on the counter's limit, so the transition is enabled only
    /// below it.
    pub fn downgrade(&self, d: &mut ArcData<T>) -> (r: Weak<T>)
        requires
            old(d).wf(),
            old(d).strong_count() >= 1,
            old(d).alloc_count() < usize::MAX - 1,
        ensures
            final(d).wf(),
            final(d).strong_count() == old(d).strong_count(),
            final(d).alloc_count() == old(d).alloc_count() + 1,
            final(d).weak_count() == old(d).weak_count() + 1,
            final(d).payload() == old(d).payload(),
            final(d).handle_model() == ref_op_step(old(d).handle_model(), RefOp::Downgrade),
    {
        d.alloc_ref_count = d.alloc_ref_count + 1;
        Weak { _marker: PhantomData }
    }

    /// Exclusive access to the payload: granted exactly when this is the
    /// only strong handle and no weak handle exists.
    ///
    /// A running implementation first swaps the weak-side counter from 1 to
    /// the `usize::MAX` sentinel — which fails exactly when weak handles
    /// exist and keeps `downgrade` out meanwhile — then checks that the
    /// strong count is 1, restores the counter, and on success places an
    /// acquire fence so every other handle's retirement is visible before
    /// the payload is touched.
    pub fn get_mut<'a>(arc: &mut Arc<T>, d: &'a mut ArcData<T>) -> (r: Option<&'a mut T>)
        requires
            old(d).wf(),
            old(d).strong_count() >= 1,
        ensures
            r is Some <==> (old(d).strong_count() == 1 && old(d).weak_count() == 0),
            final(d).strong_count() == old(d).strong_count(),
            final(d).alloc_count() == old(d).alloc_count(),
            match r {
                None => final(d).payload() == old(d).payload(),
                Some(v) => {
                    &&& Some(*v) == old(d).payload()
                    &&& final(d).payload() == Some(*final(v))
                },
            },
            final(d).wf(),
    {
        if d.alloc_ref_count != 1 {
            // The sentinel swap from 1 fails: weak handles exist.
            return None;
        }
        let is_unique = d.data_ref_count == 1;
        // The sentinel is restored here in the running implementation.
        if !is_unique {
            return None;
        }
        d.data.as_mut()
    }

    /// Shared access to the payload, which any strong handle grants.
    pub fn get<'a>(&self, d: &'a ArcData<T>) -> (v: &'a T)
        requires
            d.wf(),
            d.strong_count() >= 1,
        ensures
            Some(*v) == d.payload(),
    {
        match &d.data {
            Some(v) => v,
            None => unreached(),
        }
    }

    /// Retire a strong handle: the strong count goes one down. When this
    /// was the last strong handle the payload leaves the block — returned
    /// here for the caller to destroy, after the acquire fence a running
    /// implementation places — and the pinned weak unit is released with
    /// it.
    pub fn release(self, d: &mut ArcData<T>) -> (r: Option<T>)
        requires
            old(d).wf(),
            old(d).strong_count() >= 1,
        ensures
            final(d).wf(),
            final(d).strong_count() == old(d).strong_count() - 1,
            final(d).weak_count() == old(d).weak_count(),
            r is Some <==> old(d).strong_count() == 1,
            if old(d).strong_count() == 1 {
                &&& r == old(d).payload()
                &&& final(d).payload() is None
                &&& final(d).alloc_count() == old(d).alloc_count() - 1
            } else {
                &&& r is None
                &&& final(d).payload() == old(d).payload()
                &&& final(d).alloc_count() == old(d).alloc_count()
            },
            final(d).handle_model() == ref_op_step(old(d).handle_model(), RefOp::DropStrong),
    {
        d.data_ref_count = d.data_ref_count - 1;
        if d.data_ref_count == 0 {
            // Destroy the payload, then release the weak unit that stood
            // for all strong handles.
            d.alloc_ref_count = d.alloc_ref_count - 1;
            d.data.take()
        } else {
            None
        }
    }
}

impl<T> Weak<T> {
    /// Try to obtain a strong handle: succeeds exactly when at least one
    /// strong handle still exists at the moment of the attempt. A true zero
    /// is final (see [`lemma_no_strong_handles_is_final`]), so no further
    /// synchronization is needed to refuse the upgrade.
    pub fn upgrade(&self, d: &mut ArcData<T>) -> (r: Option<Arc<T>>)
        requires
            old(d).wf(),
            old(d).alloc_count() >= 1,
            old(d).strong_count() < usize::MAX,
        ensures
            final(d).wf(),
            r is Some <==> old(d).strong_count() >= 1,
            final(d).strong_count() == (if old(d).strong_count() >= 1 {
                old(d).strong_count() + 1
            } else {
                0int
            }),
            final(d).alloc_count() == old(d).alloc_count(),
            final(d).payload() == old(d).payload(),
            final(d).handle_model() == ref_op_step(old(d).handle_model(), RefOp::Upgrade),
    {
        if d.data_ref_count == 0 {
            None
        } else {
            d.data_ref_count = d.data_ref_count + 1;
            Some(Arc { _marker: PhantomData })
        }
    }

    /// Clone a weak handle: the weak-side counter goes one up, with the
    /// same abort boundary as the strong clone.
    pub fn clone(&self, d: &mut ArcData<T>) -> (r: Weak<T>)
        requires
            old(d).wf(),
            old(d).alloc_count() >= 1,
            old(d).alloc_count() <= usize::MAX / 2,
        ensures
            final(d).wf(),
            final(d).strong_count() == old(d).strong_count(),
            final(d).alloc_count() == old(d).alloc_count() + 1,
            final(d).payload() == old(d).payload(),
            final(d).handle_model() == ref_op_step(old(d).handle_model(), RefOp::CloneWeak),
    {
        d.alloc_ref_count = d.alloc_ref_count + 1;
        Weak { _marker: PhantomData }
    }

    /// Retire a weak handle: the weak-side counter goes one down, and the
    /// block is free once it reaches zero, which the returned flag reports.
    pub fn release(self, d: &mut ArcData<T>) -> (freed: bool)
        requires
            old(d).wf(),
            old(d).alloc_count() >= 1,
            old(d).strong_count() >= 1 ==> old(d).alloc_count() >= 2,
        ensures
            final(d).wf(),
            final(d).strong_count() == old(d).strong_count(),
            final(d).alloc_count() == old(d).alloc_count() - 1,
            final(d).payload() == old(d).payload(),
            freed <==> final(d).alloc_count() == 0,
            final(d).handle_model() == ref_op_step(old(d).handle_model(), RefOp::DropWeak),
    {
        d.alloc_ref_count = d.alloc_ref_count - 1;
        d.alloc_ref_count == 0
    }
}

// ---------------------------------------------------------------------------
// Whole-history reasoning
//
// The contracts above fix each transition; the model below runs whole
// histories of handle operations, to state that however clones, drops,
// downgrades and upgrades interleave, the payload is destroyed exactly
// once, exactly when the last strong handle retires.
// ---------------------------------------------------------------------------

/// Handle-level state: how many strong and weak handles exist, and whether
/// the payload is still alive.
pub struct HandleModel {
    pub strong: nat,
    pub weak: nat,
    pub alive: bool,
}

/// One handle operation of a history.
pub enum RefOp {
    CloneStrong,
    DropStrong,
    Downgrade,
    CloneWeak,
    DropWeak,
    Upgrade,
}

/// When an operation can occur: it needs a handle of its kind to be called
/// on. `Upgrade` needs only a weak handle — it is answerable in every
/// state, succeeding or not.
pub open spec fn ref_op_enabled(s: HandleModel, op: RefOp) -> bool {
    match op {
        RefOp::CloneStrong => s.strong >= 1,
        RefOp::DropStrong => s.strong >= 1,
        RefOp::Downgrade => s.strong >= 1,
        RefOp::CloneWeak => s.weak >= 1,
        RefOp::DropWeak => s.weak >= 1,
        RefOp::Upgrade => s.weak >= 1,
    }
}

pub open spec fn ref_op_step(s: HandleModel, op: RefOp) -> HandleModel {
    match op {
        RefOp::CloneStrong => HandleModel { strong: s.strong + 1, ..s },
        RefOp::DropStrong => HandleModel {
            strong: (s.strong - 1) as nat,
            alive: s.alive && s.strong != 1,
            ..s
        },
        RefOp::Downgrade => HandleModel { weak: s.weak + 1, ..s },
        RefOp::CloneWeak => HandleModel { weak: s.weak + 1, ..s },
        RefOp::DropWeak => HandleModel { weak: (s.weak - 1) as nat, ..s },
        RefOp::Upgrade => if s.strong >= 1 {
            HandleModel { strong: s.strong + 1, ..s }
        } else {
            s
        },
    }
}

/// Whether this operation destroys the payload: only the retirement of the
/// last strong handle does.
pub open spec fn ref_op_destroys(s: HandleModel, op: RefOp) -> bool {
    op is DropStrong && s.strong == 1
}

pub open spec fn ref_history_valid(s: HandleModel, ops: Seq<RefOp>) -> bool
    decreases ops.len(),
{
    ops.len() == 0 || (ref_op_enabled(s, ops.first()) && ref_history_valid(
        ref_op_step(s, ops.first()),
        ops.drop_first(),
    ))
}

pub open spec fn ref_history_run(s: HandleModel, ops: Seq<RefOp>) -> HandleModel
    decreases ops.len(),
{
    if ops.len() == 0 {
        s
    } else {
        ref_history_run(ref_op_step(s, ops.first()), ops.drop_first())
    }
}

/// How many operations of a history destroy the payload.
pub open spec fn count_destructions(s: HandleModel, ops: Seq<RefOp>) -> int
    decreases ops.len(),
{
    if ops.len() == 0 {
        0
    } else {
        (if ref_op_destroys(s, ops.first()) {
            1int
        } else {
            0int
        }) + count_destructions(ref_op_step(s, ops.first()), ops.drop_first())
    }
}

/// A true zero is final: once no strong handle exists, no history of handle
/// operations revives one — cloning needs a strong handle and an upgrade
/// finds none — so every later upgrade returns none and the payload is
/// never touched again.
pub proof fn lemma_no_strong_handles_is_final(s: HandleModel, ops: Seq<RefOp>)
    requires
        ref_history_valid(s, ops),
        s.strong == 0,
    ensures
        ref_history_run(s, ops).strong == 0,
        ref_history_run(s, ops).alive == s.alive,
        count_destructions(s, ops) == 0,
    decreases ops.len(),
{
    if ops.len() > 0 {
        lemma_no_strong_handles_is_final(ref_op_step(s, ops.first()), ops.drop_first());
    }
}

/// However concurrent clones, drops, downgrades and upgrades of the handles
/// interleave, the payload is destroyed exactly once — exactly when the
/// last strong handle retires — and it is alive exactly as long as a strong
/// handle exists.
pub proof fn lemma_payload_destroyed_exactly_once(s: HandleModel, ops: Seq<RefOp>)
    requires
        ref_history_valid(s, ops),
        s.alive == (s.strong >= 1),
    ensures
        ref_history_run(s, ops).alive == (ref_history_run(s, ops).strong >= 1),
        count_destructions(s, ops) == (if s.strong >= 1 && ref_history_run(s, ops).strong == 0 {
            1int
        } else {
            0int
        }),
    decreases ops.len(),
{
    if ops.len() > 0 {
        let s2 = ref_op_step(s, ops.first());
        if ref_op_destroys(s, ops.first()) {
            lemma_no_strong_handles_is_final(s2, ops.drop_first());
        } else {
            lemma_payload_destroyed_exactly_once(s2, ops.drop_first());
        }
    }
}

} // verus!
