//! The shared allocation lifecycle, modelled over an explicit heap.
//!
//! A [`Heap`] is the set of allocations one engine manages.  Each allocation
//! is a [`Slot`]: an owner count colocated with the payload while at least
//! one owner exists, and a tombstone once the final owner has released it.
//! A [`Handle`] stands for one unit of ownership of one slot; it cannot be
//! duplicated except through [`Heap::clone_handle`], which pays for the copy
//! by incrementing the count.  A [`UniqueHandle`] witnesses that its slot had
//! a single owner when it was formed and grants mutable access without a
//! further runtime check.
//!
//! The counting strategy is pluggable: a [`CountPolicy`] decides which
//! pre-increment counts the overflow guard lets through, and proves that the
//! guard keeps the counter from wrapping.

use vstd::prelude::*;
use vstd::pervasive::unreached;

use core::marker::PhantomData;

use crate::ReferenceCounted;

verus! {

/// One allocation: the owner count and the payload live together until the
/// final release, which leaves a freed tombstone behind.
pub enum Slot<T> {
    /// At least one owner exists; `count` says how many.
    Live { count: usize, value: T },
    /// The payload has been destroyed and the memory returned.
    Freed,
}

/// The overflow guard of a counting engine: which pre-increment counts an
/// increment may proceed from.  An increment from a count the guard refuses
/// aborts the process in a running engine, so the verified operations simply
/// exclude those counts.
pub trait CountPolicy {
    /// The counts from which the guard lets an increment proceed.
    spec fn allows_increment(count: nat) -> bool;

    /// The runtime form of the guard.
    fn check_increment(count: usize) -> (ok: bool)
        ensures
            ok <==> Self::allows_increment(count as nat),
    ;

    /// The guard never admits an increment that would wrap the counter.
    proof fn increment_fits(count: nat)
        requires
            Self::allows_increment(count),
        ensures
            count + 1 <= usize::MAX,
    ;
}

/// A shared handle: one unit of ownership of one slot of a [`Heap`].
///
/// Handles are deliberately neither `Copy` nor `Clone`; a new handle to the
/// same allocation only comes from [`Heap::clone_handle`], which increments
/// the owner count in the same step.
pub struct Handle<T, P> {
    index: usize,
    marker: PhantomData<(T, P)>,
}

/// An exclusive handle: formed only while its slot has exactly one owner,
/// and unable to mint further owners, so mutable access through it needs no
/// runtime re-check.
pub struct UniqueHandle<T, P> {
    index: usize,
    marker: PhantomData<(T, P)>,
}

impl<T, P> Handle<T, P> {
    /// The slot this handle owns a share of.
    pub closed spec fn id(self) -> int {
        self.index as int
    }
}

impl<T, P> UniqueHandle<T, P> {
    /// The slot this handle owns outright.
    pub closed spec fn id(self) -> int {
        self.index as int
    }

    /// Give the exclusive handle back as a shared one.
    ///
    /// The conversion is a type-level capability change only: it takes no
    /// heap and touches no count.
    pub fn into_shared(self) -> (handle: Handle<T, P>)
        ensures
            handle.id() == self.id(),
    {
        Handle { index: self.index, marker: PhantomData }
    }
}

/// Whether `i` indexes a live slot of `s`.
pub open spec fn slot_live<T>(s: Seq<Slot<T>>, i: int) -> bool {
    0 <= i < s.len() && s[i] is Live
}

/// The owner count of slot `i`.
pub open spec fn slot_count<T>(s: Seq<Slot<T>>, i: int) -> nat {
    s[i]->count as nat
}

/// The payload of slot `i`.
pub open spec fn slot_value<T>(s: Seq<Slot<T>>, i: int) -> T {
    s[i]->value
}

/// A fresh allocation: one new slot with a single owner, appended at the end.
pub open spec fn new_step<T>(s: Seq<Slot<T>>, value: T) -> Seq<Slot<T>> {
    s.push((Slot::Live { count: 1, value }))
}

/// One increment of the owner count of slot `i`.
pub open spec fn clone_step<T>(s: Seq<Slot<T>>, i: int) -> Seq<Slot<T>> {
    s.update(
        i,
        (Slot::Live { count: (slot_count(s, i) + 1) as usize, value: slot_value(s, i) }),
    )
}

/// One release of a unit of ownership of slot `i`: the sole owner's release
/// destroys the payload and frees the slot; any other release only
/// decrements the count.
pub open spec fn release_step<T>(s: Seq<Slot<T>>, i: int) -> Seq<Slot<T>> {
    if slot_count(s, i) == 1 {
        s.update(i, Slot::Freed)
    } else {
        s.update(
            i,
            (Slot::Live { count: (slot_count(s, i) - 1) as usize, value: slot_value(s, i) }),
        )
    }
}

/// An attempt to move the payload out of slot `i`: the slot is freed when a
/// single owner holds it, and nothing changes otherwise.
pub open spec fn unwrap_step<T>(s: Seq<Slot<T>>, i: int) -> Seq<Slot<T>> {
    if slot_count(s, i) == 1 {
        s.update(i, Slot::Freed)
    } else {
        s
    }
}

/// Every live slot has at least one owner.
pub open spec fn slots_wf<T>(s: Seq<Slot<T>>) -> bool {
    forall|i: int| #[trigger] slot_live(s, i) ==> slot_count(s, i) >= 1
}

/// A change confined to slot `i` that leaves it freed, or live with at
/// least one owner, preserves well-formedness.
proof fn lemma_wf_change<T>(pre: Seq<Slot<T>>, post: Seq<Slot<T>>, i: int)
    requires
        slots_wf(pre),
        post.len() == pre.len(),
        forall|j: int| 0 <= j < pre.len() && j != i ==> post[j] == pre[j],
        slot_live(post, i) ==> slot_count(post, i) >= 1,
    ensures
        slots_wf(post),
{
    assert forall|j: int| slot_live(post, j) implies slot_count(post, j) >= 1 by {
        if j != i {
            assert(slot_live(pre, j));
        }
    }
}

/// Appending a fresh single-owner slot preserves well-formedness.
proof fn lemma_wf_new_step<T>(s: Seq<Slot<T>>, value: T)
    requires
        slots_wf(s),
    ensures
        slots_wf(new_step(s, value)),
{
    assert forall|j: int| slot_live(new_step(s, value), j) implies slot_count(new_step(s, value), j)
        >= 1 by {
        if j != s.len() {
            assert(slot_live(s, j));
        }
    }
}

/// The heap of allocations one counting engine manages.
pub struct Heap<T, P> {
    slots: Vec<Slot<T>>,
    marker: PhantomData<P>,
}

impl<T, P: CountPolicy> Heap<T, P> {
    /// The slots as the mathematical model every contract speaks of.
    pub closed spec fn model(self) -> Seq<Slot<T>> {
        self.slots@
    }

    /// How many slots the heap has allocated so far, freed ones included.
    pub open spec fn len(self) -> nat {
        self.model().len()
    }

    /// Whether slot `i` is live.
    pub open spec fn is_live(self, i: int) -> bool {
        slot_live(self.model(), i)
    }

    /// The owner count of slot `i`.
    pub open spec fn count_at(self, i: int) -> nat {
        slot_count(self.model(), i)
    }

    /// The payload of slot `i`.
    pub open spec fn value_at(self, i: int) -> T {
        slot_value(self.model(), i)
    }

    /// Every live slot has at least one owner.
    pub open spec fn wf(self) -> bool {
        slots_wf(self.model())
    }

    /// An engine managing no allocations yet.
    pub fn new() -> (heap: Self)
        ensures
            heap.wf(),
            heap.len() == 0,
    {
        Heap { slots: Vec::new(), marker: PhantomData }
    }

    /// Allocate a fresh slot holding `value`, owned by the one handle
    /// returned: its count starts at 1.
    pub fn new_handle(&mut self, value: T) -> (handle: Handle<T, P>)
        requires
            old(self).wf(),
        ensures
            final(self).wf(),
            final(self).model() == new_step(old(self).model(), value),
            handle.id() == old(self).len(),
            final(self).len() == old(self).len() + 1,
            final(self).is_live(handle.id()),
            final(self).count_at(handle.id()) == 1,
            final(self).value_at(handle.id()) == value,
            forall|j: int|
                0 <= j < old(self).len() ==> final(self).model()[j] == old(self).model()[j],
    {
        let ghost pre = self.model();
        let ghost payload = value;
        let index: usize = self.slots.len();
        self.slots.push(Slot::Live { count: 1, value });
        proof {
            lemma_wf_new_step(pre, payload);
        }
        Handle { index, marker: PhantomData }
    }

    /// Clone a handle: increment the owner count of its slot and return a
    /// second handle to the same slot.  The payload is neither read nor
    /// written.  Counts the policy's overflow guard refuses are excluded:
    /// from those a running engine aborts rather than let the counter wrap.
    pub fn clone_handle(&mut self, handle: &Handle<T, P>) -> (twin: Handle<T, P>)
        requires
            old(self).wf(),
            old(self).is_live(handle.id()),
            P::allows_increment(old(self).count_at(handle.id())),
        ensures
            final(self).wf(),
            final(self).model() == clone_step(old(self).model(), handle.id()),
            twin.id() == handle.id(),
            final(self).len() == old(self).len(),
            final(self).is_live(handle.id()),
            final(self).count_at(handle.id()) == old(self).count_at(handle.id()) + 1,
            final(self).value_at(handle.id()) == old(self).value_at(handle.id()),
            forall|j: int|
                0 <= j < old(self).len() && j != handle.id() ==> final(self).model()[j]
                    == old(self).model()[j],
    {
        let i: usize = handle.index;
        let slot = self.slots.remove(i);
        match slot {
            Slot::Live { count, value } => {
                proof {
                    P::increment_fits(count as nat);
                }
                self.slots.insert(i, Slot::Live { count: count + 1, value });
                proof {
                    assert(self.slots@ =~= clone_step(old(self).model(), handle.id()));
                    lemma_wf_change(old(self).model(), self.model(), handle.id());
                }
                Handle { index: i, marker: PhantomData }
            },
            Slot::Freed => unreached(),
        }
    }

    /// Release one unit of ownership.  The sole owner's release destroys the
    /// payload — returned here so the caller can watch it go — and frees the
    /// slot; any other release decrements the count and returns nothing.
    pub fn release(&mut self, handle: Handle<T, P>) -> (destroyed: Option<T>)
        requires
            old(self).wf(),
            old(self).is_live(handle.id()),
        ensures
            final(self).wf(),
            final(self).model() == release_step(old(self).model(), handle.id()),
            final(self).len() == old(self).len(),
            destroyed is Some <==> old(self).count_at(handle.id()) == 1,
            old(self).count_at(handle.id()) == 1 ==> destroyed == Some(
                old(self).value_at(handle.id()),
            ) && !final(self).is_live(handle.id()),
            old(self).count_at(handle.id()) != 1 ==> destroyed is None && final(self).is_live(
                handle.id(),
            ) && final(self).count_at(handle.id()) == old(self).count_at(handle.id()) - 1
                && final(self).value_at(handle.id()) == old(self).value_at(handle.id()),
            forall|j: int|
                0 <= j < old(self).len() && j != handle.id() ==> final(self).model()[j]
                    == old(self).model()[j],
    {
        let i: usize = handle.index;
        let slot = self.slots.remove(i);
        match slot {
            Slot::Live { count, value } => {
                if count == 1 {
                    self.slots.insert(i, Slot::Freed);
                    proof {
                        assert(self.slots@ =~= release_step(old(self).model(), handle.id()));
                        lemma_wf_change(old(self).model(), self.model(), handle.id());
                    }
                    Some(value)
                } else {
                    self.slots.insert(i, Slot::Live { count: count - 1, value });
                    proof {
                        assert(self.slots@ =~= release_step(old(self).model(), handle.id()));
                        lemma_wf_change(old(self).model(), self.model(), handle.id());
                    }
                    None
                }
            },
            Slot::Freed => unreached(),
        }
    }

    /// Try to take sole ownership of the payload.  With exactly one owner
    /// the payload moves out and the slot is freed without destroying the
    /// payload again; otherwise the heap is left untouched and the handle
    /// comes back unchanged, signalling "still shared".
    pub fn try_unwrap(&mut self, handle: Handle<T, P>) -> (outcome: Result<T, Handle<T, P>>)
        requires
            old(self).wf(),
            old(self).is_live(handle.id()),
        ensures
            final(self).wf(),
            final(self).model() == unwrap_step(old(self).model(), handle.id()),
            outcome is Ok <==> old(self).count_at(handle.id()) == 1,
            old(self).count_at(handle.id()) == 1 ==> outcome == Ok::<T, Handle<T, P>>(
                old(self).value_at(handle.id()),
            ) && !final(self).is_live(handle.id()),
            old(self).count_at(handle.id()) != 1 ==> final(self).model() == old(self).model() && (
            outcome matches Err(returned) && returned.id() == handle.id()),
    {
        let i: usize = handle.index;
        let count: usize = self.read_count(i);
        if count == 1 {
            let slot = self.slots.remove(i);
            match slot {
                Slot::Live { count: _, value } => {
                    self.slots.insert(i, Slot::Freed);
                    proof {
                        assert(self.slots@ =~= unwrap_step(old(self).model(), handle.id()));
                        lemma_wf_change(old(self).model(), self.model(), handle.id());
                    }
                    Ok(value)
                },
                Slot::Freed => unreached(),
            }
        } else {
            Err(handle)
        }
    }

    /// Read the payload through a shared handle.
    pub fn read(&self, handle: &Handle<T, P>) -> (payload: &T)
        requires
            self.is_live(handle.id()),
        ensures
            *payload == self.value_at(handle.id()),
    {
        self.read_at(handle.index)
    }

    /// Turn a sole-owner shared handle into an exclusive one.
    ///
    /// The caller must have just established that the count is exactly 1 —
    /// here that proof obligation is discharged statically.  The conversion
    /// is zero-cost: the heap is not even mutable here, so no count changes.
    pub fn into_unique(&self, handle: Handle<T, P>) -> (unique: UniqueHandle<T, P>)
        requires
            self.is_live(handle.id()),
            self.count_at(handle.id()) == 1,
        ensures
            unique.id() == handle.id(),
    {
        UniqueHandle { index: handle.index, marker: PhantomData }
    }

    /// Try to turn a shared handle into an exclusive one: the checked form
    /// of [`Heap::into_unique`].  It succeeds exactly when the handle is
    /// the sole owner; otherwise the handle comes back unchanged,
    /// signalling "still shared".  Like the unchecked form this takes no
    /// mutable heap: no count changes either way.
    pub fn try_into_unique(&self, handle: Handle<T, P>) -> (outcome: Result<
        UniqueHandle<T, P>,
        Handle<T, P>,
    >)
        requires
            self.wf(),
            self.is_live(handle.id()),
        ensures
            outcome is Ok <==> self.count_at(handle.id()) == 1,
            outcome matches Ok(unique) ==> unique.id() == handle.id(),
            outcome matches Err(returned) ==> returned.id() == handle.id(),
    {
        let count: usize = self.read_count(handle.index);
        if count == 1 {
            let index: usize = handle.index;
            Ok(UniqueHandle { index, marker: PhantomData })
        } else {
            Err(handle)
        }
    }

    /// Write the payload through a shared handle that is the sole owner,
    /// handing the previous payload back.  A running engine grants this
    /// access with no runtime re-check, which is sound if and only if the
    /// count is exactly 1: here that safety condition is the
    /// statically-proved requirement.
    pub fn write_sole(&mut self, handle: &Handle<T, P>, value: T) -> (previous: T)
        requires
            old(self).wf(),
            old(self).is_live(handle.id()),
            old(self).count_at(handle.id()) == 1,
        ensures
            final(self).wf(),
            previous == old(self).value_at(handle.id()),
            final(self).model() == old(self).model().update(
                handle.id(),
                (Slot::Live { count: 1, value }),
            ),
            final(self).len() == old(self).len(),
            final(self).is_live(handle.id()),
            final(self).count_at(handle.id()) == 1,
            final(self).value_at(handle.id()) == value,
    {
        self.replace_at(handle.index, value)
    }

    /// Allocate a fresh slot already held exclusively: its one owner is the
    /// exclusive handle returned.
    pub fn new_unique(&mut self, value: T) -> (unique: UniqueHandle<T, P>)
        requires
            old(self).wf(),
        ensures
            final(self).wf(),
            final(self).model() == new_step(old(self).model(), value),
            unique.id() == old(self).len(),
            final(self).len() == old(self).len() + 1,
            final(self).is_live(unique.id()),
            final(self).count_at(unique.id()) == 1,
            final(self).value_at(unique.id()) == value,
    {
        let handle = self.new_handle(value);
        let index: usize = handle.index;
        UniqueHandle { index, marker: PhantomData }
    }

    /// Read the payload through an exclusive handle.
    pub fn read_unique(&self, unique: &UniqueHandle<T, P>) -> (payload: &T)
        requires
            self.is_live(unique.id()),
        ensures
            *payload == self.value_at(unique.id()),
    {
        self.read_at(unique.index)
    }

    /// Write the payload through an exclusive handle, handing the previous
    /// payload back.  No runtime uniqueness check is made: the exclusive
    /// handle's invariant — a count of exactly 1 — already grants it.
    pub fn write_unique(&mut self, unique: &UniqueHandle<T, P>, value: T) -> (previous: T)
        requires
            old(self).wf(),
            old(self).is_live(unique.id()),
            old(self).count_at(unique.id()) == 1,
        ensures
            final(self).wf(),
            previous == old(self).value_at(unique.id()),
            final(self).model() == old(self).model().update(
                unique.id(),
                (Slot::Live { count: 1, value }),
            ),
            final(self).len() == old(self).len(),
            final(self).is_live(unique.id()),
            final(self).count_at(unique.id()) == 1,
            final(self).value_at(unique.id()) == value,
    {
        self.replace_at(unique.index, value)
    }

    /// Move the payload out through an exclusive handle and free the slot.
    /// The sole owner is consumed, so this cannot fail.
    pub fn take_unique(&mut self, unique: UniqueHandle<T, P>) -> (payload: T)
        requires
            old(self).wf(),
            old(self).is_live(unique.id()),
            old(self).count_at(unique.id()) == 1,
        ensures
            final(self).wf(),
            payload == old(self).value_at(unique.id()),
            final(self).model() == unwrap_step(old(self).model(), unique.id()),
            final(self).len() == old(self).len(),
            !final(self).is_live(unique.id()),
    {
        let i: usize = unique.index;
        let slot = self.slots.remove(i);
        match slot {
            Slot::Live { count: _, value } => {
                self.slots.insert(i, Slot::Freed);
                proof {
                    assert(self.slots@ =~= unwrap_step(old(self).model(), unique.id()));
                    lemma_wf_change(old(self).model(), self.model(), unique.id());
                }
                value
            },
            Slot::Freed => unreached(),
        }
    }

    /// Read the owner count of slot `i`.
    fn read_count(&self, i: usize) -> (count: usize)
        requires
            self.is_live(i as int),
        ensures
            count as nat == self.count_at(i as int),
    {
        match &self.slots[i] {
            Slot::Live { count, .. } => *count,
            Slot::Freed => unreached(),
        }
    }

    /// Read the payload of slot `i`.
    fn read_at(&self, i: usize) -> (payload: &T)
        requires
            self.is_live(i as int),
        ensures
            *payload == self.value_at(i as int),
    {
        match &self.slots[i] {
            Slot::Live { value, .. } => value,
            Slot::Freed => unreached(),
        }
    }

    /// Swap the payload of sole-owned slot `i` for `value`.
    fn replace_at(&mut self, i: usize, value: T) -> (previous: T)
        requires
            old(self).wf(),
            old(self).is_live(i as int),
            old(self).count_at(i as int) == 1,
        ensures
            final(self).wf(),
            previous == old(self).value_at(i as int),
            final(self).model() == old(self).model().update(
                i as int,
                (Slot::Live { count: 1, value }),
            ),
            final(self).len() == old(self).len(),
            final(self).is_live(i as int),
            final(self).count_at(i as int) == 1,
            final(self).value_at(i as int) == value,
    {
        let slot = self.slots.remove(i);
        match slot {
            Slot::Live { count, value: previous } => {
                self.slots.insert(i, Slot::Live { count, value });
                proof {
                    assert(self.slots@ =~= old(self).model().update(
                        i as int,
                        (Slot::Live { count: 1, value }),
                    ));
                    lemma_wf_change(old(self).model(), self.model(), i as int);
                }
                previous
            },
            Slot::Freed => unreached(),
        }
    }
}

impl<T, P: CountPolicy> ReferenceCounted<T> for Heap<T, P> {
    type Handle = Handle<T, P>;

    open spec fn inv(&self) -> bool {
        self.wf()
    }

    open spec fn handle_live(&self, handle: &Handle<T, P>) -> bool {
        self.is_live(handle.id())
    }

    open spec fn handle_count(&self, handle: &Handle<T, P>) -> nat {
        self.count_at(handle.id())
    }

    fn reference_count(&self, handle: &Handle<T, P>) -> (count: usize) {
        self.read_count(handle.index)
    }

    fn can_make_mut(&self, handle: &Handle<T, P>) -> (unique: bool) {
        let count: usize = self.read_count(handle.index);
        count == 1
    }
}

} // verus!
