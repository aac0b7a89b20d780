//! Small primitives for passing a notice between tasks: a flag and a
//! counter.

use vstd::prelude::*;

verus! {

/// A flag that one task raises and another takes.
pub struct AtomicFlag {
    flag: bool,
}

impl AtomicFlag {
    /// Whether the flag is raised.
    pub closed spec fn raised(&self) -> bool {
        self.flag
    }

    /// A flag that is not raised.
    pub fn new() -> (r: Self)
        ensures
            !r.raised(),
    {
        AtomicFlag { flag: false }
    }

    /// Raises the flag.
    pub fn set(&mut self)
        ensures
            final(self).raised(),
    {
        self.flag = true;
    }

    /// Lowers the flag.
    pub fn clear(&mut self)
        ensures
            !final(self).raised(),
    {
        self.flag = false;
    }

    /// Returns whether the flag was raised, and lowers it.
    pub fn take(&mut self) -> (r: bool)
        ensures
            r == old(self).raised(),
            !final(self).raised(),
    {
        let was = self.flag;
        self.flag = false;
        was
    }

    /// Whether the flag is raised.
    pub fn is_set(&self) -> (r: bool)
        ensures
            r == self.raised(),
    {
        self.flag
    }
}

impl Default for AtomicFlag {
    fn default() -> (r: Self)
        ensures
            !r.raised(),
    {
        AtomicFlag::new()
    }
}

/// The sum of two counter values, which wraps at the width of the counter.
pub open spec fn wrapped_sum(a: u64, b: u64) -> u64 {
    if a + b > u64::MAX {
        (a + b - u64::MAX - 1) as u64
    } else {
        (a + b) as u64
    }
}

/// A counter for statistics and sequence numbers. It wraps at the width of
/// its value.
pub struct AtomicCounter {
    count: u64,
}

impl AtomicCounter {
    /// The count.
    pub closed spec fn value(&self) -> u64 {
        self.count
    }

    /// A counter at 0.
    pub fn new() -> (r: Self)
        ensures
            r.value() == 0,
    {
        AtomicCounter { count: 0 }
    }

    /// A counter at `value`.
    pub fn with_value(value: u64) -> (r: Self)
        ensures
            r.value() == value,
    {
        AtomicCounter { count: value }
    }

    /// Adds one and returns the new count.
    pub fn increment(&mut self) -> (r: u64)
        ensures
            r == wrapped_sum(old(self).value(), 1),
            final(self).value() == r,
    {
        self.count = self.count.wrapping_add(1);
        self.count
    }

    /// Adds `value` and returns the new count.
    pub fn add(&mut self, value: u64) -> (r: u64)
        ensures
            r == wrapped_sum(old(self).value(), value),
            final(self).value() == r,
    {
        self.count = self.count.wrapping_add(value);
        self.count
    }

    /// The count.
    pub fn get(&self) -> (r: u64)
        ensures
            r == self.value(),
    {
        self.count
    }

    /// Sets the count to 0.
    pub fn reset(&mut self)
        ensures
            final(self).value() == 0,
    {
        self.count = 0;
    }
}

impl Default for AtomicCounter {
    fn default() -> (r: Self)
        ensures
            r.value() == 0,
    {
        AtomicCounter::new()
    }
}

} // verus!
