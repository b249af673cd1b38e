//! Reference-counted ownership primitives with a verified lifecycle.
//!
//! The library models the protocol behind a shared pointer: an owner count
//! colocated with a payload in one allocation, incremented by `clone`,
//! decremented by release, with the payload destroyed and the allocation
//! freed exactly once, at the moment the count reaches zero.  A sole owner
//! may recover an exclusive, mutation-capable view of the payload.
//!
//! Two engines share the lifecycle logic and differ only in their overflow
//! guard: a thread-safe flavour whose counter saturates at a soft ceiling
//! ([`arc`]), and a single-owner flavour that refuses the extremes of the
//! counter's range ([`rc`]).

use vstd::prelude::*;

pub mod arc;
pub mod heap;
pub mod laws;
pub mod rc;

verus! {

/// A smart pointer engine that keeps track of how many pointers refer to the
/// same allocation and exposes this information in its API.
///
/// Every implementation is bound to the cardinal invariant linking counting
/// to mutation capability: `can_make_mut` answers `true` exactly when
/// `reference_count` would answer `1`.  The shared spec function
/// `handle_count` in the two contracts enforces this for each implementation.
pub trait ReferenceCounted<T> {
    /// The handle type whose owners are counted.
    type Handle;

    /// The engine's internal validity invariant.
    spec fn inv(&self) -> bool;

    /// Whether the handle refers to an allocation of this engine that is
    /// still live.
    spec fn handle_live(&self, handle: &Self::Handle) -> bool;

    /// The number of owners of the allocation the handle refers to.
    spec fn handle_count(&self, handle: &Self::Handle) -> nat;

    /// Get the number of owning pointers referring to the same allocation:
    /// a strictly positive count, exact at the instant of the read.
    fn reference_count(&self, handle: &Self::Handle) -> (count: usize)
        requires
            self.inv(),
            self.handle_live(handle),
        ensures
            count as nat == self.handle_count(handle),
            count >= 1,
    ;

    /// Whether an exclusive, mutation-capable view of the payload may be
    /// formed: true if and only if the handle is the sole owner.
    fn can_make_mut(&self, handle: &Self::Handle) -> (unique: bool)
        requires
            self.inv(),
            self.handle_live(handle),
        ensures
            unique <==> self.handle_count(handle) == 1,
    ;
}

} // verus!
