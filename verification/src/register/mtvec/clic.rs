//! Writing the trap-vector register in the CLIC encoding.

use crate::register::mtvec::{address_of, sub_mode_of, trap_mode_of, Mtvec, SubMode, TrapMode};
use vstd::prelude::*;

verus! {

/// The register image that a write of the base address `addr`, the CLIC
/// sub-mode `submode` and the trap mode `mode` leaves: the sum of the
/// address, the sub-mode's encoding moved up by two bits, and the mode's
/// encoding. Nothing aligns the address: low bits that it carries are added
/// into the sub-mode and mode fields.
pub fn write(addr: usize, submode: SubMode, mode: TrapMode) -> (csr: Mtvec<true>)
    requires
        addr + submode.encoding() * 4 + mode.encoding() <= usize::MAX,
    ensures
        csr@ == addr + submode.encoding() * 4 + mode.encoding(),
{
    let sub: usize = submode.bits();
    assert(sub << 2 == sub * 4) by (bit_vector)
        requires
            sub == 0,
    ;
    let bits: usize = addr + (sub << 2) + mode.bits();
    Mtvec::from_bits(bits)
}

/// Decoding an address aligned to 64 bytes, a sub-mode and a mode that were
/// written gives all three back.
pub proof fn lemma_write_decodes(addr: usize, submode: SubMode, mode: TrapMode)
    requires
        addr & 0b111111 == 0,
    ensures
        addr + submode.encoding() * 4 + mode.encoding() <= usize::MAX,
        address_of((addr + submode.encoding() * 4 + mode.encoding()) as usize, true) == addr,
        trap_mode_of((addr + submode.encoding() * 4 + mode.encoding()) as usize, true) == Some(
            mode,
        ),
        sub_mode_of((addr + submode.encoding() * 4 + mode.encoding()) as usize) == Some(submode),
{
    let m: usize = mode.encoding();
    assert(submode.encoding() == 0);
    assert(m <= 3);
    assert(((addr + m) as usize) == addr + m && ((addr + m) as usize) & !0b111111usize == addr && ((addr
        + m) as usize) & 0b11 == m && (((addr + m) as usize) & 0b111100) >> 2 == 0) by (bit_vector)
        requires
            addr & 0b111111 == 0,
            m <= 3,
    ;
}

} // verus!
