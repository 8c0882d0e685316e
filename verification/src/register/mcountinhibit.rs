//! Counter-inhibit register: one bit per hardware counter, set while the
//! counter is stopped.

use crate::register::field::{bit_is_set, get_bit};
use vstd::prelude::*;

verus! {

/// Image of the counter-inhibit register.
#[derive(Clone, Copy, Debug)]
pub struct Mcountinhibit {
    bits: usize,
}

impl View for Mcountinhibit {
    type V = usize;

    closed spec fn view(&self) -> usize {
        self.bits
    }
}

impl Mcountinhibit {
    /// The image of a register that holds `bits`.
    pub fn from_bits(bits: usize) -> (csr: Self)
        ensures
            csr@ == bits,
    {
        Mcountinhibit { bits }
    }

    /// Cycle count disable: bit 0.
    pub fn cy(&self) -> (inhibited: bool)
        ensures
            inhibited == bit_is_set(self@, 0),
    {
        get_bit(self.bits, 0)
    }

    /// Instructions-retired count disable: bit 2.
    pub fn ir(&self) -> (inhibited: bool)
        ensures
            inhibited == bit_is_set(self@, 2),
    {
        get_bit(self.bits, 2)
    }

    /// Count disable of the performance-monitoring counter `index`, for the
    /// counters 3 to 31: bit `index`.
    pub fn hpm(&self, index: usize) -> (inhibited: bool)
        requires
            3 <= index < 32,
        ensures
            inhibited == bit_is_set(self@, index),
    {
        get_bit(self.bits, index)
    }
}

/// The register word `bits` after the count-disable bit of the
/// performance-monitoring counter `index` was set: that bit is set, every
/// other bit is as in `bits`.
pub fn set_hpm(bits: usize, index: usize) -> (after: usize)
    requires
        3 <= index < 32,
    ensures
        after == bits | (1usize << index),
{
    bits | (1usize << index)
}

/// The register word `bits` after the count-disable bit of the
/// performance-monitoring counter `index` was cleared: that bit is clear,
/// every other bit is as in `bits`.
pub fn clear_hpm(bits: usize, index: usize) -> (after: usize)
    requires
        3 <= index < 32,
    ensures
        after == bits & !(1usize << index),
{
    bits & !(1usize << index)
}

/// Setting and clearing a counter's bit shows in that counter's flag and in
/// no other.
pub proof fn lemma_hpm_set_clear(bits: usize, index: usize, other: usize)
    by (bit_vector)
    requires
        index < 32,
        other < 32,
    ensures
        bit_is_set(bits | (1usize << index), index),
        !bit_is_set(bits & !(1usize << index), index),
        other != index ==> bit_is_set(bits | (1usize << index), other) == bit_is_set(bits, other),
        other != index ==> bit_is_set(bits & !(1usize << index), other) == bit_is_set(bits, other),
{
}

} // verus!
