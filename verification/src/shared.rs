//! Shared read-only access for the processing phase.

use vstd::prelude::*;

verus! {

/// Holds a value that is built during the single-threaded discovery phase
/// and only ever read afterwards. Workers need nothing more than this
/// immutable view of the discovered set — which index each worker touches
/// is settled separately by the work cursor, before any access.
pub struct MultiSliceReadWriteLock<T> {
    data: T,
}

impl<T> MultiSliceReadWriteLock<T> {
    /// The value held.
    pub closed spec fn spec_inner(&self) -> T {
        self.data
    }

    /// Wrap a fully-built value for the processing phase.
    pub fn new(data: T) -> (r: MultiSliceReadWriteLock<T>)
        ensures
            r.spec_inner() == data,
    {
        MultiSliceReadWriteLock { data }
    }

    /// Read-only access to the value.
    pub fn read(&self) -> (r: &T)
        ensures
            *r == self.spec_inner(),
    {
        &self.data
    }
}

} // verus!
