//! Trap-vector register: one machine word that holds the base address of
//! the trap handler together with the trap-delivery mode in its two lowest
//! bits. With the CLIC in use the four bits above the mode hold a CLIC
//! sub-mode, and the base address starts at bit 6.
//!
//! Whether the CLIC encoding is in use is fixed when the firmware is built;
//! here it is the type parameter `CLIC` of [`Mtvec`].

pub mod clic;

use vstd::prelude::*;

verus! {

/// Image of the trap-vector register. `CLIC` tells whether the word is read
/// in the CLIC encoding.
#[derive(Clone, Copy, Debug)]
pub struct Mtvec<const CLIC: bool> {
    bits: usize,
}

/// Trap mode
#[derive(Copy, Clone, Debug, Eq, PartialEq, Structural)]
pub enum TrapMode {
    /// All traps enter at the base address. Encoded as 0.
    Direct,
    /// Interrupts enter at the base address plus four times their cause.
    /// Encoded as 1.
    Vectored,
    /// Traps are delivered through the CLIC. Encoded as 3, and decoded only
    /// in the CLIC encoding.
    Clic,
}

/// CLIC sub mode.
/// Currently there is just one mode.
#[derive(Copy, Clone, Debug, Eq, PartialEq, Structural)]
pub enum SubMode {
    /// Encoded as 0.
    Default,
}

impl TrapMode {
    /// The two-bit encoding of the mode.
    pub open spec fn encoding(self) -> usize {
        match self {
            TrapMode::Direct => 0,
            TrapMode::Vectored => 1,
            TrapMode::Clic => 3,
        }
    }

    /// The two-bit encoding of the mode.
    pub fn bits(self) -> (bits: usize)
        ensures
            bits == self.encoding(),
    {
        match self {
            TrapMode::Direct => 0,
            TrapMode::Vectored => 1,
            TrapMode::Clic => 3,
        }
    }
}

impl SubMode {
    /// The four-bit encoding of the sub-mode.
    pub open spec fn encoding(self) -> usize {
        match self {
            SubMode::Default => 0,
        }
    }

    /// The four-bit encoding of the sub-mode.
    pub fn bits(self) -> (bits: usize)
        ensures
            bits == self.encoding(),
    {
        match self {
            SubMode::Default => 0,
        }
    }
}

/// The low bits of a register word that do not belong to the address: the
/// mode alone, or the mode and the sub-mode in the CLIC encoding.
pub open spec fn low_field(bits: usize, clic: bool) -> usize {
    if clic {
        bits & 0b111111
    } else {
        bits & 0b11
    }
}

/// The base address in a register word: the word with its mode bits, and in
/// the CLIC encoding its sub-mode bits too, cleared.
pub open spec fn address_of(bits: usize, clic: bool) -> usize {
    if clic {
        bits & !0b111111usize
    } else {
        bits & !0b11usize
    }
}

/// The trap mode in a register word. The reserved encoding 2 decodes to
/// nothing, and so does 3 outside the CLIC encoding.
pub open spec fn trap_mode_of(bits: usize, clic: bool) -> Option<TrapMode> {
    let mode: usize = bits & 0b11;
    if mode == 0 {
        Some(TrapMode::Direct)
    } else if mode == 1 {
        Some(TrapMode::Vectored)
    } else if mode == 3 && clic {
        Some(TrapMode::Clic)
    } else {
        None
    }
}

/// The CLIC sub-mode in a register word: bits 2 to 5. Every encoding but 0
/// decodes to nothing.
pub open spec fn sub_mode_of(bits: usize) -> Option<SubMode> {
    if (bits & 0b111100) >> 2 == 0 {
        Some(SubMode::Default)
    } else {
        None
    }
}

/// The word without its low field is the word with the low field's bits
/// cleared; the difference never underflows.
proof fn lemma_address(bits: usize)
    by (bit_vector)
    ensures
        bits & 0b11 <= bits,
        bits & 0b111111 <= bits,
        bits - (bits & 0b11) == bits & !0b11usize,
        bits - (bits & 0b111111) == bits & !0b111111usize,
{
}

impl<const CLIC: bool> View for Mtvec<CLIC> {
    type V = usize;

    closed spec fn view(&self) -> usize {
        self.bits
    }
}

impl<const CLIC: bool> Mtvec<CLIC> {
    /// The image of a register that holds `bits`.
    pub fn from_bits(bits: usize) -> (csr: Self)
        ensures
            csr@ == bits,
    {
        Mtvec { bits }
    }

    /// Returns the contents of the register as raw bits
    pub fn bits(&self) -> (bits: usize)
        ensures
            bits == self@,
    {
        self.bits
    }

    /// Returns the trap-vector base-address: the register word with its two
    /// mode bits masked away, or in the CLIC encoding its six mode and
    /// sub-mode bits.
    pub fn address(&self) -> (addr: usize)
        ensures
            addr == address_of(self@, CLIC),
    {
        proof {
            lemma_address(self.bits);
        }
        if CLIC {
            self.bits - (self.bits & 0b111111)
        } else {
            self.bits - (self.bits & 0b11)
        }
    }

    /// Returns the trap-vector mode
    pub fn trap_mode(&self) -> (mode: Option<TrapMode>)
        ensures
            mode == trap_mode_of(self@, CLIC),
    {
        let mode: usize = self.bits & 0b11;
        if mode == 0 {
            Some(TrapMode::Direct)
        } else if mode == 1 {
            Some(TrapMode::Vectored)
        } else if mode == 3 && CLIC {
            Some(TrapMode::Clic)
        } else {
            None
        }
    }
}

impl Mtvec<true> {
    /// Returns the CLIC sub-mode
    pub fn sub_mode(&self) -> (sub_mode: Option<SubMode>)
        ensures
            sub_mode == sub_mode_of(self@),
    {
        let mode: usize = (self.bits & 0b111100) >> 2;
        if mode == 0 {
            Some(SubMode::Default)
        } else {
            None
        }
    }
}

/// The register image that a write of the base address `addr` and the trap
/// mode `mode` leaves: the sum of the address and the mode's encoding.
/// Nothing aligns the address: low bits that it carries are added into the
/// mode field.
pub fn write(addr: usize, mode: TrapMode) -> (csr: Mtvec<false>)
    requires
        addr + mode.encoding() <= usize::MAX,
    ensures
        csr@ == addr + mode.encoding(),
{
    let bits: usize = addr + mode.bits();
    Mtvec::from_bits(bits)
}

/// Decoding an address aligned to four bytes and a mode that were written
/// gives both back, for the two modes that exist without the CLIC.
pub proof fn lemma_write_decodes(addr: usize, mode: TrapMode)
    requires
        addr & 0b11 == 0,
        mode != TrapMode::Clic,
    ensures
        addr + mode.encoding() <= usize::MAX,
        address_of((addr + mode.encoding()) as usize, false) == addr,
        trap_mode_of((addr + mode.encoding()) as usize, false) == Some(mode),
{
    let m: usize = mode.encoding();
    assert(m <= 1);
    assert(((addr + m) as usize) == addr + m && ((addr + m) as usize) & !0b11usize == addr && ((addr
        + m) as usize) & 0b11 == m) by (bit_vector)
        requires
            addr & 0b11 == 0,
            m <= 1,
    ;
}

/// The address that is read never exceeds the register word, is aligned to
/// the encoding's boundary, and differs from the word by the low field
/// alone.
pub proof fn lemma_address_masks(bits: usize, clic: bool)
    by (bit_vector)
    ensures
        address_of(bits, clic) <= bits,
        address_of(bits, clic) + low_field(bits, clic) == bits,
        low_field(address_of(bits, clic), clic) == 0,
        !clic ==> low_field(bits, clic) <= 3,
        clic ==> low_field(bits, clic) <= 63,
{
}

} // verus!
