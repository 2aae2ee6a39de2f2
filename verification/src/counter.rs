//! A counter of open reload connections.

use vstd::prelude::*;

verus! {

/// Counts how many reload connections have been accepted so far.
pub struct Counter {
    pub count: i32,
}

impl Counter {
    /// Increment the count and return the new value.
    pub fn inc(&mut self) -> (r: i32)
        requires
            old(self).count < i32::MAX,
        ensures
            final(self).count == old(self).count + 1,
            r == final(self).count,
    {
        self.count = self.count + 1;
        self.count
    }
}

impl Default for Counter {
    /// A fresh counter starts at zero.
    fn default() -> (r: Self)
        ensures
            r.count == 0,
    {
        Counter { count: 0 }
    }
}

} // verus!
