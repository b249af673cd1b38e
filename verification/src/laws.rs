//! The lifecycle laws, stated over the spec-level transitions of
//! [`crate::heap`] and proved once for every engine.

use vstd::prelude::*;

use crate::heap::{
    clone_step, new_step, release_step, slot_count, slot_live, slot_value, unwrap_step,
    CountPolicy, Slot,
};

verus! {

/// A fresh allocation starts with exactly one owner holding exactly the
/// payload it was given.
pub proof fn lemma_new_starts_unique<T>(s: Seq<Slot<T>>, value: T)
    ensures
        slot_live(new_step(s, value), s.len() as int),
        slot_count(new_step(s, value), s.len() as int) == 1,
        slot_value(new_step(s, value), s.len() as int) == value,
{
}

/// Cloning under the overflow guard increments the owner count by exactly
/// one — in particular the counter never silently wraps — and leaves the
/// payload, and every other allocation, untouched.
pub proof fn lemma_clone_increments<T, P: CountPolicy>(s: Seq<Slot<T>>, i: int)
    requires
        slot_live(s, i),
        P::allows_increment(slot_count(s, i)),
    ensures
        slot_live(clone_step(s, i), i),
        slot_count(clone_step(s, i), i) == slot_count(s, i) + 1,
        slot_value(clone_step(s, i), i) == slot_value(s, i),
        forall|j: int| 0 <= j < s.len() && j != i ==> #[trigger] clone_step(s, i)[j] == s[j],
{
    P::increment_fits(slot_count(s, i));
}

/// While more than one owner exists, a release never destroys the payload:
/// the slot stays live, with the count decremented by exactly one.
pub proof fn lemma_shared_release_keeps_payload<T>(s: Seq<Slot<T>>, i: int)
    requires
        slot_live(s, i),
        slot_count(s, i) >= 2,
    ensures
        slot_live(release_step(s, i), i),
        slot_count(release_step(s, i), i) == slot_count(s, i) - 1,
        slot_value(release_step(s, i), i) == slot_value(s, i),
{
}

/// The sole owner's release destroys the payload and frees the slot.
pub proof fn lemma_final_release_frees<T>(s: Seq<Slot<T>>, i: int)
    requires
        slot_live(s, i),
        slot_count(s, i) == 1,
    ensures
        !slot_live(release_step(s, i), i),
        release_step(s, i)[i] is Freed,
{
}

/// Two handles aliasing one allocation: releasing the first never frees it,
/// and releasing the second frees it — the payload is destroyed exactly
/// once, at the second release.
pub proof fn lemma_release_frees_exactly_once<T>(s: Seq<Slot<T>>, i: int)
    requires
        slot_live(s, i),
        slot_count(s, i) == 2,
    ensures
        ({
            let after_first = release_step(s, i);
            let after_second = release_step(after_first, i);
            &&& slot_live(after_first, i)
            &&& slot_count(after_first, i) == 1
            &&& slot_value(after_first, i) == slot_value(s, i)
            &&& !slot_live(after_second, i)
            &&& after_second[i] is Freed
        }),
{
}

/// Taking the payload out succeeds exactly for a sole owner, and a failed
/// attempt is free of side effects: the heap is unchanged.
pub proof fn lemma_unwrap_succeeds_iff_unique<T>(s: Seq<Slot<T>>, i: int)
    requires
        slot_live(s, i),
    ensures
        slot_count(s, i) == 1 ==> !slot_live(unwrap_step(s, i), i),
        slot_count(s, i) != 1 ==> unwrap_step(s, i) == s,
{
}

} // verus!
