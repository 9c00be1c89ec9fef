//! A minimal exclusive-access spin lock.
//!
//! Both `lock` and `unlock` take the lock by `&mut self`, so a single owner
//! drives the lock's whole lifetime; the `busy` flag records whether the lock
//! is currently held.

use vstd::prelude::*;

verus! {

/// A lock driven through an exclusive reference: `busy` is true exactly while
/// the lock is held.
pub struct SpinLock {
    pub busy: bool,
}

impl SpinLock {
    /// Creates a lock that is not held.
    pub fn new() -> (r: SpinLock)
        ensures
            !r.busy,
    {
        SpinLock { busy: false }
    }

    /// Acquires the lock: afterwards the lock is held.
    pub fn lock(&mut self)
        ensures
            final(self).busy,
    {
        self.busy = true;
    }

    /// Releases the lock: afterwards the lock is not held.
    pub fn unlock(&mut self)
        ensures
            !final(self).busy,
    {
        self.busy = false;
    }
}

} // verus!
