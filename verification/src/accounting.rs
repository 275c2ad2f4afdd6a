//! The running total of bytes found or removed.

use vstd::prelude::*;
use crate::sizing::capped;

verus! {

/// The bytes accounted for so far in one run. It only grows, and it stops at
/// `u64::MAX`.
#[derive(Clone, Copy, Debug, PartialEq, Eq, Structural)]
pub struct RunningTotal {
    pub bytes: u64,
}

impl View for RunningTotal {
    type V = u64;

    open spec fn view(&self) -> u64 {
        self.bytes
    }
}

impl RunningTotal {
    /// A total of nothing.
    pub fn new() -> (total: RunningTotal)
        ensures
            total@ == 0,
    {
        RunningTotal { bytes: 0 }
    }

    /// Adds the size of one more directory.
    pub fn add(&mut self, size: u64)
        ensures
            final(self)@ == capped((old(self)@ + size) as nat),
    {
        self.bytes = self.bytes.saturating_add(size);
    }

    /// The total in bytes.
    pub fn bytes(&self) -> (bytes: u64)
        ensures
            bytes == self@,
    {
        self.bytes
    }
}

} // verus!
