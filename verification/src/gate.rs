//! The concurrency gate: the single access point wrapping the entity
//! store behind the multiple-readers/single-writer discipline.
//!
//! The discipline is carried by the borrow forms themselves: any number of
//! read handles (`&Store`) may be out at once, while a write handle
//! (`&mut Store`) is exclusive for its whole lifetime. A lifecycle
//! operation takes the write handle for its entire read-validate-write
//! span, so no other writer's mutation of the same record can interleave
//! between its validation read and its write: every mutation that lands is
//! one atomic step from the store state it actually read before writing.

use vstd::prelude::*;

use crate::store::Store;
use crate::store::StoreView;

verus! {

/// The process-wide handle around the one store.
pub struct Gate {
    store: Store,
}

impl View for Gate {
    type V = StoreView;

    closed spec fn view(&self) -> StoreView {
        self.store@
    }
}

impl Gate {
    /// The gated store's invariant.
    pub open spec fn wf(&self) -> bool {
        self@.wf()
    }

    /// Wraps a store in the `Gate`.
    pub fn new(store: Store) -> (g: Gate)
        ensures
            g@ == store@,
    {
        Gate { store }
    }

    /// A shared read handle: many may be held at once, and no mutation
    /// can happen while any is live.
    pub fn read(&self) -> (r: &Store)
        ensures
            r@ == self@,
    {
        &self.store
    }

    /// The exclusive write handle: held for the whole span of a mutating
    /// operation, it serialises that operation against every other access.
    pub fn write(&mut self) -> (r: &mut Store)
        ensures
            (*r)@ == old(self)@,
            final(self)@ == final(r)@,
    {
        &mut self.store
    }
}

} // verus!
