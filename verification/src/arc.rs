//! The thread-safe counting engine.
//!
//! In a running engine the counter is shared by every thread holding a
//! handle: increments are relaxed atomic operations, the final decrement
//! synchronizes with a fence before the destructor runs.  The lifecycle and
//! counting logic modelled here is what that protocol protects; the policy
//! below carries the engine's one behavioural difference, its overflow
//! guard.

use vstd::prelude::*;

use crate::heap::{CountPolicy, Handle, Heap, UniqueHandle};

verus! {

/// A soft limit on the amount of references that may be made to one
/// allocation: the largest count the counter can represent with its top bit
/// clear.  Going above this limit aborts a running engine — not necessarily
/// at exactly `MAX_REFCOUNT + 1` references, since racing increments may
/// overshoot before any of them checks.
pub const MAX_REFCOUNT: usize = usize::MAX / 2;

/// The thread-safe engine's counting policy.
///
/// Its guard checks only against the soft ceiling, not against zero: a
/// clone proceeds from an existing handle, so the count it reads can never
/// be zero.
pub struct ThreadSafe;

impl CountPolicy for ThreadSafe {
    open spec fn allows_increment(count: nat) -> bool {
        count <= MAX_REFCOUNT
    }

    fn check_increment(count: usize) -> (ok: bool) {
        count <= MAX_REFCOUNT
    }

    proof fn increment_fits(count: nat) {
    }
}

/// A thread-safe reference-counted pointer.
pub type Arc<T> = Handle<T, ThreadSafe>;

/// A thread-safe pointer witnessed to be its allocation's sole owner.
pub type UniqueArc<T> = UniqueHandle<T, ThreadSafe>;

/// The allocations of the thread-safe engine.
pub type ArcHeap<T> = Heap<T, ThreadSafe>;

} // verus!
