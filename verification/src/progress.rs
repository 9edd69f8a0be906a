//! Aggregate progress: items attempted and bytes copied, both
//! non-decreasing, updated after every processed item.

use vstd::prelude::*;

verus! {

/// Addition on counter values that sticks at the counter's ceiling instead
/// of wrapping.
pub open spec fn sat_add(a: nat, b: nat) -> nat {
    if a + b > u64::MAX {
        u64::MAX as nat
    } else {
        a + b
    }
}

/// Aggregate progress across workers: how many items were attempted and how
/// many bytes successful copies moved. The two counters are independent;
/// each only ever grows.
pub struct ProgressTracker {
    items: u64,
    bytes: u64,
}

impl ProgressTracker {
    /// Items attempted so far.
    pub closed spec fn spec_items(&self) -> nat {
        self.items as nat
    }

    /// Bytes copied by successful items so far.
    pub closed spec fn spec_bytes(&self) -> nat {
        self.bytes as nat
    }

    /// A fresh tracker with both counters at zero.
    pub fn new() -> (t: ProgressTracker)
        ensures
            t.spec_items() == 0,
            t.spec_bytes() == 0,
    {
        ProgressTracker { items: 0, bytes: 0 }
    }

    /// Record that one more item was attempted.
    pub fn record_attempt(&mut self)
        ensures
            final(self).spec_items() == sat_add(old(self).spec_items(), 1),
            final(self).spec_bytes() == old(self).spec_bytes(),
    {
        if self.items < u64::MAX {
            self.items = self.items + 1;
        }
    }

    /// Record that a successful copy moved `n` bytes.
    pub fn record_bytes(&mut self, n: u64)
        ensures
            final(self).spec_bytes() == sat_add(old(self).spec_bytes(), n as nat),
            final(self).spec_items() == old(self).spec_items(),
    {
        if n <= u64::MAX - self.bytes {
            self.bytes = self.bytes + n;
        } else {
            self.bytes = u64::MAX;
        }
    }

    /// Read both counters for reporting.
    pub fn snapshot(&self) -> (r: (u64, u64))
        ensures
            r.0 as nat == self.spec_items(),
            r.1 as nat == self.spec_bytes(),
    {
        (self.items, self.bytes)
    }
}

} // verus!
