//! Bit-field codec: masked reads and writes of an inclusive bit range
//! `[low, high]` of a 32-bit word.
//!
//! A field is named by the positions of its highest and lowest bit, bit 0
//! being the least significant, with `low <= high <= 31`. Reading a field
//! gives its value moved down to position 0. Writing a field replaces it by
//! the low bits of a value and keeps every bit outside it; a value wider
//! than the field is cut to the field's width.

use vstd::prelude::*;

verus! {

/// Whether bit `i` of `word` is set.
pub open spec fn bit(word: u32, i: u8) -> bool {
    (word >> i) & 1 == 1
}

/// The word whose bits below position `n` are set and whose other bits are
/// clear: `2^n - 1` for `n <= 32`.
pub open spec fn low_bits(n: u8) -> u32 {
    if n >= 32 {
        u32::MAX
    } else {
        !(u32::MAX << n)
    }
}

/// The word whose set bits are exactly the positions `low ..= high`.
pub open spec fn field_mask(high: u8, low: u8) -> u32 {
    low_bits((high + 1) as u8) & !low_bits(low)
}

/// The value held by bits `low ..= high` of `word`, moved down to position 0.
pub open spec fn read_bits_spec(word: u32, high: u8, low: u8) -> u32 {
    (word & field_mask(high, low)) >> low
}

/// `word` with bits `low ..= high` replaced by the low `high - low + 1` bits
/// of `value`; every other bit is kept.
pub open spec fn write_bits_spec(word: u32, high: u8, low: u8, value: u32) -> u32 {
    (word & !field_mask(high, low)) | ((value << low) & field_mask(high, low))
}

/// Adding the single bit `i` to the mask of bits `low .. i` gives the mask of
/// bits `low ..= i`, and the sum does not carry.
proof fn lemma_mask_step(low: u8, i: u8)
    by (bit_vector)
    requires
        low <= i <= 31,
    ensures
        (low_bits(i) & !low_bits(low)) + (1u32 << i) == (low_bits((i + 1) as u8) & !low_bits(low)),
        (low_bits(i) & !low_bits(low)) + (1u32 << i) <= u32::MAX,
        (low_bits(low) & !low_bits(low)) == 0,
{
}

/// Builds the mask of bits `low ..= high` one bit at a time.
fn range_mask(high: u8, low: u8) -> (mask: u32)
    requires
        low <= high <= 31,
    ensures
        mask == field_mask(high, low),
{
    let mut mask: u32 = 0;
    let mut i: u8 = low;
    proof {
        lemma_mask_step(low, low);
    }
    while i < high + 1
        invariant
            low <= i <= high + 1,
            high <= 31,
            mask == low_bits(i) & !low_bits(low),
        decreases high + 1 - i,
    {
        proof {
            lemma_mask_step(low, i);
        }
        mask += 1u32 << i;
        i += 1;
    }
    mask
}

/// Reads the bits of `base_value` at positions `low_bit ..= high_bit`: bit
/// `i` of the result is bit `low_bit + i` of `base_value` as far as the
/// field reaches, and clear above.
pub fn read_bits(base_value: u32, high_bit: u8, low_bit: u8) -> (bits: u32)
    requires
        low_bit <= high_bit <= 31,
    ensures
        bits == read_bits_spec(base_value, high_bit, low_bit),
        forall|i: u8|
            i <= 31 ==> #[trigger] bit(bits, i) == (i <= high_bit - low_bit && bit(
                base_value,
                (low_bit + i) as u8,
            )),
{
    let mask: u32 = range_mask(high_bit, low_bit);
    let offset: u8 = low_bit;
    proof {
        assert forall|i: u8| i <= 31 implies #[trigger] bit(
            read_bits_spec(base_value, high_bit, low_bit),
            i,
        ) == (i <= high_bit - low_bit && bit(base_value, (low_bit + i) as u8)) by {
            lemma_read_bits_bitwise(base_value, high_bit, low_bit, i);
        }
    }
    (base_value & mask) >> offset
}

/// Writes `bits` into `base_value` at positions `low_bit ..= high_bit`: bit
/// `i` of the result is bit `i - low_bit` of `bits` inside the field and bit
/// `i` of `base_value` outside it. Bits of `bits` that do not fit the field
/// are dropped.
pub fn write_bits(base_value: u32, high_bit: u8, low_bit: u8, bits: u32) -> (word: u32)
    requires
        low_bit <= high_bit <= 31,
    ensures
        word == write_bits_spec(base_value, high_bit, low_bit, bits),
        forall|i: u8|
            i <= 31 ==> #[trigger] bit(word, i) == (if low_bit <= i && i <= high_bit {
                bit(bits, (i - low_bit) as u8)
            } else {
                bit(base_value, i)
            }),
{
    let mask: u32 = range_mask(high_bit, low_bit);
    let offset: u8 = low_bit;
    proof {
        assert forall|i: u8| i <= 31 implies #[trigger] bit(
            write_bits_spec(base_value, high_bit, low_bit, bits),
            i,
        ) == (if low_bit <= i && i <= high_bit {
            bit(bits, (i - low_bit) as u8)
        } else {
            bit(base_value, i)
        }) by {
            lemma_write_bits_bitwise(base_value, high_bit, low_bit, bits, i);
        }
    }
    (base_value & !mask) | ((bits << offset) & mask)
}

/// `low_bits(n)` is `2^n - 1`.
pub proof fn lemma_low_bits_value(n: u8)
    by (bit_vector)
    requires
        n <= 32,
    ensures
        low_bits(n) as u64 == (1u64 << n) - 1,
{
}

/// The field mask is the difference of two powers of two:
/// `2^(high + 1) - 2^low`.
pub proof fn lemma_field_mask_value(high: u8, low: u8)
    by (bit_vector)
    requires
        low <= high <= 31,
    ensures
        field_mask(high, low) as u64 == (1u64 << ((high + 1) as u8)) - (1u64 << low),
{
}

/// The masks of the widths that the registers' fields have.
pub proof fn lemma_low_bits_of_field_widths()
    by (bit_vector)
    ensures
        low_bits(1) == 0x1,
        low_bits(2) == 0x3,
        low_bits(4) == 0xF,
        low_bits(6) == 0x3F,
        low_bits(8) == 0xFF,
        low_bits(13) == 0x1FFF,
{
}

/// The field mask has exactly the bits `low ..= high` set.
pub proof fn lemma_field_mask_bits(high: u8, low: u8, i: u8)
    by (bit_vector)
    requires
        low <= high <= 31,
        i <= 31,
    ensures
        bit(field_mask(high, low), i) == (low <= i && i <= high),
{
}

/// Bit `i` of a field that was read is bit `low + i` of the word, as long as
/// that position lies inside the field; above the field's width it is clear.
pub proof fn lemma_read_bits_bitwise(word: u32, high: u8, low: u8, i: u8)
    by (bit_vector)
    requires
        low <= high <= 31,
        i <= 31,
    ensures
        bit(read_bits_spec(word, high, low), i) == (i <= high - low && bit(word, (low + i) as u8)),
{
}

/// Inside the field a written word carries the bits of the value, counted
/// from the field's low end; outside the field it carries the bits of the
/// word it was made from.
pub proof fn lemma_write_bits_bitwise(word: u32, high: u8, low: u8, value: u32, i: u8)
    by (bit_vector)
    requires
        low <= high <= 31,
        i <= 31,
    ensures
        bit(write_bits_spec(word, high, low, value), i) == (if low <= i && i <= high {
            bit(value, (i - low) as u8)
        } else {
            bit(word, i)
        }),
{
}

/// Round trip: writing back the field that was just read changes nothing.
pub proof fn lemma_write_read_identity(word: u32, high: u8, low: u8)
    by (bit_vector)
    requires
        low <= high <= 31,
    ensures
        write_bits_spec(word, high, low, read_bits_spec(word, high, low)) == word,
{
}

/// Isolation: a write leaves every bit outside `low ..= high` as it was.
pub proof fn lemma_write_keeps_outside(word: u32, high: u8, low: u8, value: u32)
    by (bit_vector)
    requires
        low <= high <= 31,
    ensures
        write_bits_spec(word, high, low, value) & !field_mask(high, low) == word & !field_mask(
            high,
            low,
        ),
{
}

/// Truncation: reading a field back gives the low `high - low + 1` bits of
/// the value that was written, whatever the value's width.
pub proof fn lemma_read_write_truncates(word: u32, high: u8, low: u8, value: u32)
    by (bit_vector)
    requires
        low <= high <= 31,
    ensures
        read_bits_spec(write_bits_spec(word, high, low, value), high, low) == value & low_bits(
            (high - low + 1) as u8,
        ),
{
}

/// A value that fits the field is read back unchanged.
pub proof fn lemma_read_write_fitting(word: u32, high: u8, low: u8, value: u32)
    by (bit_vector)
    requires
        low <= high <= 31,
        value <= low_bits((high - low + 1) as u8),
    ensures
        read_bits_spec(write_bits_spec(word, high, low, value), high, low) == value,
{
}

/// A field that was read fits its width.
pub proof fn lemma_read_bits_bound(word: u32, high: u8, low: u8)
    by (bit_vector)
    requires
        low <= high <= 31,
    ensures
        read_bits_spec(word, high, low) <= low_bits((high - low + 1) as u8),
{
}

/// Writes to two fields that do not overlap do not disturb each other: the
/// first field still reads as it did before the second write.
pub proof fn lemma_write_keeps_disjoint_field(
    word: u32,
    high: u8,
    low: u8,
    value: u32,
    other_high: u8,
    other_low: u8,
)
    by (bit_vector)
    requires
        low <= high <= 31,
        other_low <= other_high <= 31,
        high < other_low || other_high < low,
    ensures
        read_bits_spec(write_bits_spec(word, high, low, value), other_high, other_low)
            == read_bits_spec(word, other_high, other_low),
{
}

} // verus!
