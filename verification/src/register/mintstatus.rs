//! Interrupt-status register: the interrupt level that each privilege mode
//! is running at.

use vstd::prelude::*;

verus! {

/// Image of the read-only interrupt-status register.
#[derive(Clone, Copy, Debug)]
pub struct Mintstatus {
    bits: usize,
}

impl View for Mintstatus {
    type V = usize;

    closed spec fn view(&self) -> usize {
        self.bits
    }
}

/// Each level is one byte of the register word.
proof fn lemma_levels_fit(bits: usize)
    by (bit_vector)
    ensures
        (bits >> 24) & 0xFF <= 255,
        (bits >> 8) & 0xFF <= 255,
        (bits >> 0) & 0xFF == bits & 0xFF,
        bits & 0xFF <= 255,
{
}

impl Mintstatus {
    /// The image of a register that holds `bits`.
    pub fn from_bits(bits: usize) -> (csr: Self)
        ensures
            csr@ == bits,
    {
        Mintstatus { bits }
    }

    /// Returns the contents of the register as raw bits
    pub fn bits(&self) -> (bits: usize)
        ensures
            bits == self@,
    {
        self.bits
    }

    /// Returns the machine mode interrupt level: bits 24 to 31.
    pub fn mil(&self) -> (level: usize)
        ensures
            level == (self@ >> 24) & 0xFF,
            level <= 255,
    {
        proof {
            lemma_levels_fit(self.bits);
        }
        (self.bits >> 24) & 0xFF
    }

    /// Returns the supervisor mode interrupt level: bits 8 to 15.
    pub fn sil(&self) -> (level: usize)
        ensures
            level == (self@ >> 8) & 0xFF,
            level <= 255,
    {
        proof {
            lemma_levels_fit(self.bits);
        }
        (self.bits >> 8) & 0xFF
    }

    /// Returns the user mode interrupt level: bits 0 to 7.
    pub fn uil(&self) -> (level: usize)
        ensures
            level == self@ & 0xFF,
            level <= 255,
    {
        proof {
            lemma_levels_fit(self.bits);
        }
        (self.bits >> 0) & 0xFF
    }
}

} // verus!
