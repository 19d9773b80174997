//! The shared offset counter.
//!
//! A `Timer` holds the number of elapsed seconds to subtract from the
//! wall-clock time since startup: every reset stores the current
//! elapsed-seconds sample here, and the tick and done handlers read it
//! back. In the original single-threaded event loop the handlers are
//! mutually exclusive, so a plain cell with get/set is a faithful
//! model of the counter.

use vstd::prelude::*;

verus! {

/// A counter holding the offset, in whole seconds, established by the
/// most recent reset (`0` before any reset).
pub struct Timer {
    pub time: u64,
}

impl Timer {
    /// A fresh timer starts with no offset at all.
    pub fn new() -> (t: Timer)
        ensures
            t.time == 0,
    {
        Timer { time: 0 }
    }

    /// Returns the offset as it stands.
    pub fn get(&self) -> (r: u64)
        ensures
            r == self.time,
    {
        self.time
    }

    /// Replaces the offset; the previous value is discarded.
    pub fn set(&mut self, value: u64)
        ensures
            final(self).time == value,
    {
        self.time = value;
    }
}

/// Law: a read that follows a store, with no store in between, yields
/// exactly the stored value. `stored` is the counter as `set(v)` leaves
/// it and `r` is what `get` then returns, each as the two contracts
/// describe them.
pub proof fn lemma_set_then_get(v: u64, stored: Timer, r: u64)
    requires
        stored.time == v,
        r == stored.time,
    ensures
        r == v,
{
}

} // verus!
