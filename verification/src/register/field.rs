//! Bit and bit-range access on a machine word, done by the `bit_field` crate.

use bit_field::BitField;
use vstd::prelude::*;

verus! {

/// The machine word whose bits below position `n` are set and whose other
/// bits are clear.
pub open spec fn low_bits(n: usize) -> usize {
    if n >= usize::BITS {
        !0usize
    } else {
        !(!0usize << n)
    }
}

/// Whether bit `index` of `bits` is set.
pub open spec fn bit_is_set(bits: usize, index: usize) -> bool {
    bits & (1usize << index) != 0
}

/// Bits `start .. end` of `bits`, moved down to position 0.
pub open spec fn bit_range(bits: usize, start: usize, end: usize) -> usize {
    (bits >> start) & low_bits((end - start) as usize)
}

/// `bits` with the bits `start .. end` replaced by `value`.
pub open spec fn with_bit_range(bits: usize, start: usize, end: usize, value: usize) -> usize {
    (bits & !(low_bits((end - start) as usize) << start)) | (value << start)
}

/// `BitField::get_bit` on a machine word: whether the bit at `index` is set,
/// bit 0 being the least significant. The call panics for an index outside
/// the word, which the precondition rules out.
#[verifier::external_body]
pub(crate) fn get_bit(bits: usize, index: usize) -> (set: bool)
    requires
        index < usize::BITS,
    ensures
        set == bit_is_set(bits, index),
{
    bits.get_bit(index)
}

/// `BitField::get_bits` on a machine word with the range `start .. end`: the
/// bits of that range, moved down to position 0. The call panics for a range
/// that starts outside the word, ends outside it or ends before it starts;
/// the precondition rules these out.
#[verifier::external_body]
pub(crate) fn get_bits(bits: usize, start: usize, end: usize) -> (field: usize)
    requires
        start < usize::BITS,
        start <= end <= usize::BITS,
    ensures
        field == bit_range(bits, start, end),
{
    bits.get_bits(start..end)
}

/// `BitField::set_bits` on a machine word with the range `start .. end`: the
/// bits of that range become `value`, all others stay. Besides the ranges
/// that `get_bits` refuses, the call panics for a value with a bit set at or
/// above the range's length; the precondition rules these out.
#[verifier::external_body]
pub(crate) fn set_bits(bits: &mut usize, start: usize, end: usize, value: usize)
    requires
        start < usize::BITS,
        start <= end <= usize::BITS,
        value <= low_bits((end - start) as usize),
    ensures
        *final(bits) == with_bit_range(*old(bits), start, end, value),
{
    bits.set_bits(start..end, value);
}

} // verus!
