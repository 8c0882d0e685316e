//! Trap-vector-table register: the base address of the CLIC vector table.

use crate::register::field::{bit_range, get_bits, low_bits, set_bits, with_bit_range};
use vstd::prelude::*;

verus! {

/// Image of the trap-vector-table register.
#[derive(Clone, Copy, Debug)]
pub struct Mtvt {
    bits: usize,
}

impl View for Mtvt {
    type V = usize;

    closed spec fn view(&self) -> usize {
        self.bits
    }
}

/// The base field spans the whole word: reading it gives the word, writing
/// it replaces the word, and every value fits it.
proof fn lemma_whole_word(bits: usize, base: usize)
    by (bit_vector)
    ensures
        bit_range(bits, 0, usize::BITS as usize) == bits,
        base <= low_bits(usize::BITS as usize),
        with_bit_range(bits, 0, usize::BITS as usize, base) == base,
{
}

impl Mtvt {
    /// Returns the contents of the register as raw bits
    pub fn bits(&self) -> (bits: usize)
        ensures
            bits == self@,
    {
        self.bits
    }

    /// Gets the clic interrupt vector base
    pub fn get_base(&self) -> (base: usize)
        ensures
            base == self@,
    {
        proof {
            lemma_whole_word(self.bits, 0);
        }
        get_bits(self.bits, 0, usize::BITS as usize)
    }

    /// Sets the clic interrupt vector base
    pub fn set_base(&mut self, base: usize)
        ensures
            final(self)@ == base,
    {
        proof {
            lemma_whole_word(self.bits, base);
        }
        set_bits(&mut self.bits, 0, usize::BITS as usize, base);
    }

    /// The image of a register that holds `bits`.
    pub fn new(bits: usize) -> (csr: Mtvt)
        ensures
            csr@ == bits,
    {
        Mtvt { bits: bits }
    }
}

/// The register image that a write of the table address `addr` leaves.
pub fn write_addr(addr: usize) -> (csr: Mtvt)
    ensures
        csr@ == addr,
{
    let bits: usize = addr;
    Mtvt::new(bits)
}

} // verus!
