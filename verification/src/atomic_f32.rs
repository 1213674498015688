use std::sync::atomic::AtomicU32;
use vstd::prelude::*;

verus! {

/// A single-precision value that many threads can read and write without a lock.
///
/// The value is kept as its IEEE 754 bit pattern in one atomic word; callers
/// hand over and get back that pattern. All accesses are relaxed: a reader
/// sees some value that was stored, with no promise of which one.
///
/// No contract here speaks of what the cell holds. Another thread may store
/// between any two accesses, so nothing that is known after one access still
/// holds at the next; whoever loads must be ready for any pattern.
pub struct AtomicF32 {
    storage: AtomicU32,
}

impl AtomicF32 {
    /// A cell that holds positive zero.
    pub fn new() -> Self {
        Self { storage: AtomicU32::new(0) }
    }

    /// Overwrites the cell with the value whose bit pattern is `bits`.
    pub fn store(&self, bits: u32) {
        self.storage.store(bits, std::sync::atomic::Ordering::Relaxed);
    }

    /// The bit pattern of a value that the cell held at some recent moment.
    pub fn load(&self) -> u32 {
        self.storage.load(std::sync::atomic::Ordering::Relaxed)
    }

    /// Overwrites the cell with positive zero.
    pub fn reset(&self) {
        self.storage.store(0, std::sync::atomic::Ordering::Relaxed);
    }
}

} // verus!
