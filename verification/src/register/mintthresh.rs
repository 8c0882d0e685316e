//! Interrupt-threshold register: interrupts at or below the threshold level
//! are held back.

use crate::register::field::{bit_range, get_bits, low_bits, set_bits, with_bit_range};
use vstd::prelude::*;

verus! {

/// Image of the interrupt-threshold register.
#[derive(Clone, Copy, Debug)]
pub struct Mintthresh {
    bits: usize,
}

impl View for Mintthresh {
    type V = usize;

    closed spec fn view(&self) -> usize {
        self.bits
    }
}

/// The threshold field of a register word: bits 0 to 7.
pub open spec fn thresh_of(bits: usize) -> usize {
    bits & 0xFF
}

/// A register word with its threshold field replaced.
pub open spec fn with_thresh(bits: usize, threshold: u8) -> usize {
    (bits & !0xFFusize) | (threshold as usize)
}

proof fn lemma_thresh_range(bits: usize, threshold: u8)
    by (bit_vector)
    ensures
        bit_range(bits, 0, 8) == thresh_of(bits),
        threshold as usize <= low_bits(8),
        with_bit_range(bits, 0, 8, threshold as usize) == with_thresh(bits, threshold),
{
}

/// The threshold that was set is the threshold that is read, and the bits
/// above the field are untouched.
pub proof fn lemma_thresh_set_get(bits: usize, threshold: u8)
    by (bit_vector)
    ensures
        thresh_of(with_thresh(bits, threshold)) == threshold,
        with_thresh(bits, threshold) & !0xFFusize == bits & !0xFFusize,
        thresh_of(bits) <= 255,
{
}

impl Mintthresh {
    /// Returns the contents of the register as raw bits
    pub fn bits(&self) -> (bits: usize)
        ensures
            bits == self@,
    {
        self.bits
    }

    /// Gets the interrupt threshold
    pub fn get_thresh(&self) -> (threshold: usize)
        ensures
            threshold == thresh_of(self@),
            threshold <= 255,
    {
        proof {
            lemma_thresh_range(self.bits, 0);
            lemma_thresh_set_get(self.bits, 0);
        }
        get_bits(self.bits, 0, 8)
    }

    /// Sets the interrupt threshold
    pub fn set_thresh(&mut self, threshold: u8)
        ensures
            final(self)@ == with_thresh(old(self)@, threshold),
            thresh_of(final(self)@) == threshold,
    {
        proof {
            lemma_thresh_range(self.bits, threshold);
            lemma_thresh_set_get(self.bits, threshold);
        }
        set_bits(&mut self.bits, 0, 8, threshold as usize);
    }

    /// The image of a register that holds `bits`.
    pub fn new(bits: usize) -> (csr: Mintthresh)
        ensures
            csr@ == bits,
    {
        Mintthresh { bits: bits }
    }
}

} // verus!
