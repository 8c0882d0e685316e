//! Interrupt numbers: how a platform's interrupt sources name their line at
//! the interrupt controller.

use vstd::prelude::*;

verus! {

/// The number of interrupt lines that the controller's register file has
/// room for.
pub const MAX_INTERRUPTS: usize = 4096;

/// A platform's name for an interrupt source. All that the controller needs
/// of it is the index of the source's line, and that the same source always
/// gives the same index.
pub trait InterruptNumber: Copy {
    /// The index of the source's line.
    spec fn index(self) -> usize;

    /// Returns the index of the source's line.
    fn number(self) -> (nr: usize)
        ensures
            nr == self.index(),
    ;
}

impl InterruptNumber for usize {
    open spec fn index(self) -> usize {
        self
    }

    fn number(self) -> (nr: usize) {
        self
    }
}

impl InterruptNumber for u16 {
    open spec fn index(self) -> usize {
        self as usize
    }

    fn number(self) -> (nr: usize) {
        self as usize
    }
}

} // verus!
