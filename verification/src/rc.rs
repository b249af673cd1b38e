//! The single-owner counting engine.
//!
//! The counter is a plain integer: no atomics, because handles of this
//! engine must never cross a thread boundary.  The lifecycle logic is the
//! shared one; the policy below carries this engine's overflow guard, which
//! refuses both extremes of the counter's range before incrementing.

use vstd::prelude::*;

use crate::heap::{CountPolicy, Handle, Heap, UniqueHandle};

verus! {

/// The single-owner engine's counting policy.
///
/// Unlike the thread-safe guard, this one also treats a count of zero as an
/// error during increment: this engine's counter is decremented all the way
/// to zero as its terminal state, so a zero here would mean an increment
/// after the allocation was already released.
pub struct SingleOwner;

impl CountPolicy for SingleOwner {
    open spec fn allows_increment(count: nat) -> bool {
        0 < count < usize::MAX
    }

    fn check_increment(count: usize) -> (ok: bool) {
        count != 0 && count != usize::MAX
    }

    proof fn increment_fits(count: nat) {
    }
}

/// A non-thread-safe reference-counted pointer.
pub type Rc<T> = Handle<T, SingleOwner>;

/// A single-thread pointer witnessed to be its allocation's sole owner.
pub type UniqueRc<T> = UniqueHandle<T, SingleOwner>;

/// The allocations of the single-owner engine.
pub type RcHeap<T> = Heap<T, SingleOwner>;

} // verus!
