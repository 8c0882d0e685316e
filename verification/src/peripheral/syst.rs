//! System timer: two 32-bit timers, a low and a high one, that run on their
//! own or cascaded into one 64-bit timer.
//!
//! The register block is held as plain words. An operation takes the block
//! it works on and says in its contract which word it changes and how; every
//! other word of the block is left as it was.

use crate::bits::{
    lemma_low_bits_of_field_widths, lemma_read_write_truncates, lemma_write_keeps_disjoint_field,
    read_bits_spec, write_bits, write_bits_spec,
};
use crate::peripheral::SYST;
use vstd::prelude::*;

verus! {

/// Address of the register block.
pub const BASE_ADDRESS: usize = 0x1A10_B000;

/// Offset of `cfg_low` in the register block.
pub const CFG_LOW_OFFSET: usize = 0x00;

/// Offset of `cfg_high` in the register block.
pub const CFG_HIGH_OFFSET: usize = 0x04;

/// Offset of `cnt_low` in the register block.
pub const CNT_LOW_OFFSET: usize = 0x08;

/// Offset of `cnt_high` in the register block.
pub const CNT_HIGH_OFFSET: usize = 0x0C;

/// Offset of `cmp_low` in the register block.
pub const CMP_LOW_OFFSET: usize = 0x10;

/// Offset of `cmp_high` in the register block.
pub const CMP_HIGH_OFFSET: usize = 0x14;

/// Offset of `start_low` in the register block.
pub const START_LOW_OFFSET: usize = 0x18;

/// Offset of `start_high` in the register block.
pub const START_HIGH_OFFSET: usize = 0x1C;

/// Offset of `reset_low` in the register block.
pub const RESET_LOW_OFFSET: usize = 0x20;

/// Offset of `reset_high` in the register block.
pub const RESET_HIGH_OFFSET: usize = 0x24;

/// Register block: ten words, in the order of their offsets.
///
/// In a configuration word bit 0 enables the timer, bit 1 resets it, bit 2
/// enables its interrupt, bit 3 its event mask, bit 4 selects cycle mode
/// over continuous mode, bit 5 one-shot mode, bit 6 enables the prescaler,
/// bit 7 selects the reference clock over the FLL clock, and bits 8 to 15
/// hold the prescaler's value. Bit 31 of the low timer's configuration word
/// cascades the two timers.
#[derive(Copy, Clone, Debug, Eq, PartialEq, Structural)]
pub struct RegisterBlock {
    /// Configuration of the low timer.
    pub cfg_low: u32,
    /// Configuration of the high timer.
    pub cfg_high: u32,
    /// Counter of the low timer.
    pub cnt_low: u32,
    /// Counter of the high timer.
    pub cnt_high: u32,
    /// Compare value of the low timer.
    pub cmp_low: u32,
    /// Compare value of the high timer.
    pub cmp_high: u32,
    /// Start command of the low timer. Write-only: the word that was last written.
    pub start_low: u32,
    /// Start command of the high timer. Write-only: the word that was last written.
    pub start_high: u32,
    /// Reset command of the low timer. Write-only: the word that was last written.
    pub reset_low: u32,
    /// Reset command of the high timer. Write-only: the word that was last written.
    pub reset_high: u32,
}

impl RegisterBlock {
    /// A register block with every word 0.
    pub fn new() -> (regs: RegisterBlock)
        ensures
            regs == (RegisterBlock {
                cfg_low: 0,
                cfg_high: 0,
                cnt_low: 0,
                cnt_high: 0,
                cmp_low: 0,
                cmp_high: 0,
                start_low: 0,
                start_high: 0,
                reset_low: 0,
                reset_high: 0,
            }),
    {
        RegisterBlock {
            cfg_low: 0,
            cfg_high: 0,
            cnt_low: 0,
            cnt_high: 0,
            cmp_low: 0,
            cmp_high: 0,
            start_low: 0,
            start_high: 0,
            reset_low: 0,
            reset_high: 0,
        }
    }
}

impl SYST {
    /// Enables the low timer: sets bit 0 of its configuration word.
    pub fn enable_lo(regs: &mut RegisterBlock)
        ensures
            *final(regs) == (RegisterBlock {
                cfg_low: write_bits_spec(old(regs).cfg_low, 0, 0, 1),
                ..*old(regs)
            }),
    {
        let before: u32 = regs.cfg_low;
        let changed: u32 = write_bits(before, 0, 0, 1);
        regs.cfg_low = changed;
    }

    /// Disables the low timer: clears bit 0 of its configuration word.
    pub fn disable_lo(regs: &mut RegisterBlock)
        ensures
            *final(regs) == (RegisterBlock {
                cfg_low: write_bits_spec(old(regs).cfg_low, 0, 0, 0),
                ..*old(regs)
            }),
    {
        let before: u32 = regs.cfg_low;
        let changed: u32 = write_bits(before, 0, 0, 0);
        regs.cfg_low = changed;
    }

    /// Resets the low timer: sets bit 1 of its configuration word.
    pub fn reset_lo(regs: &mut RegisterBlock)
        ensures
            *final(regs) == (RegisterBlock {
                cfg_low: write_bits_spec(old(regs).cfg_low, 1, 1, 1),
                ..*old(regs)
            }),
    {
        let before: u32 = regs.cfg_low;
        let changed: u32 = write_bits(before, 1, 1, 1);
        regs.cfg_low = changed;
    }

    /// Enables the low timer's interrupt: sets bit 2 of its configuration
    /// word.
    pub fn enable_interrupt_lo(regs: &mut RegisterBlock)
        ensures
            *final(regs) == (RegisterBlock {
                cfg_low: write_bits_spec(old(regs).cfg_low, 2, 2, 1),
                ..*old(regs)
            }),
    {
        let before: u32 = regs.cfg_low;
        let changed: u32 = write_bits(before, 2, 2, 1);
        regs.cfg_low = changed;
    }

    /// Disables the low timer's interrupt: clears bit 2 of its configuration
    /// word.
    pub fn disable_interrupt_lo(regs: &mut RegisterBlock)
        ensures
            *final(regs) == (RegisterBlock {
                cfg_low: write_bits_spec(old(regs).cfg_low, 2, 2, 0),
                ..*old(regs)
            }),
    {
        let before: u32 = regs.cfg_low;
        let changed: u32 = write_bits(before, 2, 2, 0);
        regs.cfg_low = changed;
    }

    /// Enables the low timer's event mask: sets bit 3 of its configuration
    /// word.
    pub fn enable_event_mask_lo(regs: &mut RegisterBlock)
        ensures
            *final(regs) == (RegisterBlock {
                cfg_low: write_bits_spec(old(regs).cfg_low, 3, 3, 1),
                ..*old(regs)
            }),
    {
        let before: u32 = regs.cfg_low;
        let changed: u32 = write_bits(before, 3, 3, 1);
        regs.cfg_low = changed;
    }

    /// Disables the low timer's event mask: clears bit 3 of its
    /// configuration word.
    pub fn disable_event_mask_lo(regs: &mut RegisterBlock)
        ensures
            *final(regs) == (RegisterBlock {
                cfg_low: write_bits_spec(old(regs).cfg_low, 3, 3, 0),
                ..*old(regs)
            }),
    {
        let before: u32 = regs.cfg_low;
        let changed: u32 = write_bits(before, 3, 3, 0);
        regs.cfg_low = changed;
    }

    /// Lets the low timer count on when it reaches its compare value:
    /// clears bit 4 of its configuration word.
    pub fn set_continuos_mode_lo(regs: &mut RegisterBlock)
        ensures
            *final(regs) == (RegisterBlock {
                cfg_low: write_bits_spec(old(regs).cfg_low, 4, 4, 0),
                ..*old(regs)
            }),
    {
        let before: u32 = regs.cfg_low;
        let changed: u32 = write_bits(before, 4, 4, 0);
        regs.cfg_low = changed;
    }

    /// Lets the low timer start over when it reaches its compare value:
    /// sets bit 4 of its configuration word.
    pub fn set_cycle_mode_lo(regs: &mut RegisterBlock)
        ensures
            *final(regs) == (RegisterBlock {
                cfg_low: write_bits_spec(old(regs).cfg_low, 4, 4, 1),
                ..*old(regs)
            }),
    {
        let before: u32 = regs.cfg_low;
        let changed: u32 = write_bits(before, 4, 4, 1);
        regs.cfg_low = changed;
    }

    /// Lets the low timer stop when it first reaches its compare value:
    /// sets bit 5 of its configuration word.
    pub fn enable_one_shot_mode_lo(regs: &mut RegisterBlock)
        ensures
            *final(regs) == (RegisterBlock {
                cfg_low: write_bits_spec(old(regs).cfg_low, 5, 5, 1),
                ..*old(regs)
            }),
    {
        let before: u32 = regs.cfg_low;
        let changed: u32 = write_bits(before, 5, 5, 1);
        regs.cfg_low = changed;
    }

    /// Lets the low timer run on after it reached its compare value:
    /// clears bit 5 of its configuration word.
    pub fn disable_one_shot_mode_lo(regs: &mut RegisterBlock)
        ensures
            *final(regs) == (RegisterBlock {
                cfg_low: write_bits_spec(old(regs).cfg_low, 5, 5, 0),
                ..*old(regs)
            }),
    {
        let before: u32 = regs.cfg_low;
        let changed: u32 = write_bits(before, 5, 5, 0);
        regs.cfg_low = changed;
    }

    /// Enables the low timer's prescaler: sets bit 6 of its configuration
    /// word.
    pub fn enable_pre_scaler_mode_lo(regs: &mut RegisterBlock)
        ensures
            *final(regs) == (RegisterBlock {
                cfg_low: write_bits_spec(old(regs).cfg_low, 6, 6, 1),
                ..*old(regs)
            }),
    {
        let before: u32 = regs.cfg_low;
        let changed: u32 = write_bits(before, 6, 6, 1);
        regs.cfg_low = changed;
    }

    /// Disables the low timer's prescaler: clears bit 6 of its
    /// configuration word.
    pub fn disable_pre_scaler_mode_lo(regs: &mut RegisterBlock)
        ensures
            *final(regs) == (RegisterBlock {
                cfg_low: write_bits_spec(old(regs).cfg_low, 6, 6, 0),
                ..*old(regs)
            }),
    {
        let before: u32 = regs.cfg_low;
        let changed: u32 = write_bits(before, 6, 6, 0);
        regs.cfg_low = changed;
    }

    /// Clocks the low timer from the FLL: clears bit 7 of its configuration
    /// word.
    pub fn set_ffl_clk_lo(regs: &mut RegisterBlock)
        ensures
            *final(regs) == (RegisterBlock {
                cfg_low: write_bits_spec(old(regs).cfg_low, 7, 7, 0),
                ..*old(regs)
            }),
    {
        let before: u32 = regs.cfg_low;
        let changed: u32 = write_bits(before, 7, 7, 0);
        regs.cfg_low = changed;
    }

    /// Clocks the low timer from the reference clock: sets bit 7 of its
    /// configuration word.
    pub fn set_reference_clk_lo(regs: &mut RegisterBlock)
        ensures
            *final(regs) == (RegisterBlock {
                cfg_low: write_bits_spec(old(regs).cfg_low, 7, 7, 1),
                ..*old(regs)
            }),
    {
        let before: u32 = regs.cfg_low;
        let changed: u32 = write_bits(before, 7, 7, 1);
        regs.cfg_low = changed;
    }

    /// Sets the low timer's prescaler value: bits 8 to 15 of its
    /// configuration word become the low eight bits of `value`.
    pub fn set_pre_scale_value_lo(regs: &mut RegisterBlock, value: u32)
        ensures
            *final(regs) == (RegisterBlock {
                cfg_low: write_bits_spec(old(regs).cfg_low, 15, 8, value),
                ..*old(regs)
            }),
    {
        let before: u32 = regs.cfg_low;
        let changed: u32 = write_bits(before, 15, 8, value);
        regs.cfg_low = changed;
    }

    /// Cascades the two timers into one 64-bit timer: sets bit 31 of the
    /// low timer's configuration word.
    pub fn enable_cascaded_mode(regs: &mut RegisterBlock)
        ensures
            *final(regs) == (RegisterBlock {
                cfg_low: write_bits_spec(old(regs).cfg_low, 31, 31, 1),
                ..*old(regs)
            }),
    {
        let before: u32 = regs.cfg_low;
        let changed: u32 = write_bits(before, 31, 31, 1);
        regs.cfg_low = changed;
    }

    /// Lets the two timers run on their own: clears bit 31 of the low
    /// timer's configuration word.
    pub fn disable_cascaded_mode(regs: &mut RegisterBlock)
        ensures
            *final(regs) == (RegisterBlock {
                cfg_low: write_bits_spec(old(regs).cfg_low, 31, 31, 0),
                ..*old(regs)
            }),
    {
        let before: u32 = regs.cfg_low;
        let changed: u32 = write_bits(before, 31, 31, 0);
        regs.cfg_low = changed;
    }

    /// Enables the high timer: sets bit 0 of its configuration word.
    pub fn enable_hi(regs: &mut RegisterBlock)
        ensures
            *final(regs) == (RegisterBlock {
                cfg_high: write_bits_spec(old(regs).cfg_high, 0, 0, 1),
                ..*old(regs)
            }),
    {
        let before: u32 = regs.cfg_high;
        let changed: u32 = write_bits(before, 0, 0, 1);
        regs.cfg_high = changed;
    }

    /// Disables the high timer: clears bit 0 of its configuration word.
    pub fn disable_hi(regs: &mut RegisterBlock)
        ensures
            *final(regs) == (RegisterBlock {
                cfg_high: write_bits_spec(old(regs).cfg_high, 0, 0, 0),
                ..*old(regs)
            }),
    {
        let before: u32 = regs.cfg_high;
        let changed: u32 = write_bits(before, 0, 0, 0);
        regs.cfg_high = changed;
    }

    /// Resets the high timer: sets bit 1 of its configuration word.
    pub fn reset_hi(regs: &mut RegisterBlock)
        ensures
            *final(regs) == (RegisterBlock {
                cfg_high: write_bits_spec(old(regs).cfg_high, 1, 1, 1),
                ..*old(regs)
            }),
    {
        let before: u32 = regs.cfg_high;
        let changed: u32 = write_bits(before, 1, 1, 1);
        regs.cfg_high = changed;
    }

    /// Enables the high timer's interrupt: sets bit 2 of its configuration
    /// word.
    pub fn enable_interrupt_hi(regs: &mut RegisterBlock)
        ensures
            *final(regs) == (RegisterBlock {
                cfg_high: write_bits_spec(old(regs).cfg_high, 2, 2, 1),
                ..*old(regs)
            }),
    {
        let before: u32 = regs.cfg_high;
        let changed: u32 = write_bits(before, 2, 2, 1);
        regs.cfg_high = changed;
    }

    /// Disables the high timer's interrupt: clears bit 2 of its configuration
    /// word.
    pub fn disable_interrupt_hi(regs: &mut RegisterBlock)
        ensures
            *final(regs) == (RegisterBlock {
                cfg_high: write_bits_spec(old(regs).cfg_high, 2, 2, 0),
                ..*old(regs)
            }),
    {
        let before: u32 = regs.cfg_high;
        let changed: u32 = write_bits(before, 2, 2, 0);
        regs.cfg_high = changed;
    }

    /// Enables the high timer's event mask: sets bit 3 of its configuration
    /// word.
    pub fn enable_event_mask_hi(regs: &mut RegisterBlock)
        ensures
            *final(regs) == (RegisterBlock {
                cfg_high: write_bits_spec(old(regs).cfg_high, 3, 3, 1),
                ..*old(regs)
            }),
    {
        let before: u32 = regs.cfg_high;
        let changed: u32 = write_bits(before, 3, 3, 1);
        regs.cfg_high = changed;
    }

    /// Disables the high timer's event mask: clears bit 3 of its
    /// configuration word.
    pub fn disable_event_mask_hi(regs: &mut RegisterBlock)
        ensures
            *final(regs) == (RegisterBlock {
                cfg_high: write_bits_spec(old(regs).cfg_high, 3, 3, 0),
                ..*old(regs)
            }),
    {
        let before: u32 = regs.cfg_high;
        let changed: u32 = write_bits(before, 3, 3, 0);
        regs.cfg_high = changed;
    }

    /// Lets the high timer count on when it reaches its compare value:
    /// clears bit 4 of its configuration word.
    pub fn set_continuos_mode_hi(regs: &mut RegisterBlock)
        ensures
            *final(regs) == (RegisterBlock {
                cfg_high: write_bits_spec(old(regs).cfg_high, 4, 4, 0),
                ..*old(regs)
            }),
    {
        let before: u32 = regs.cfg_high;
        let changed: u32 = write_bits(before, 4, 4, 0);
        regs.cfg_high = changed;
    }

    /// Lets the high timer start over when it reaches its compare value:
    /// sets bit 4 of its configuration word.
    pub fn set_cycle_mode_hi(regs: &mut RegisterBlock)
        ensures
            *final(regs) == (RegisterBlock {
                cfg_high: write_bits_spec(old(regs).cfg_high, 4, 4, 1),
                ..*old(regs)
            }),
    {
        let before: u32 = regs.cfg_high;
        let changed: u32 = write_bits(before, 4, 4, 1);
        regs.cfg_high = changed;
    }

    /// Lets the high timer stop when it first reaches its compare value:
    /// sets bit 5 of its configuration word.
    pub fn enable_one_shot_mode_hi(regs: &mut RegisterBlock)
        ensures
            *final(regs) == (RegisterBlock {
                cfg_high: write_bits_spec(old(regs).cfg_high, 5, 5, 1),
                ..*old(regs)
            }),
    {
        let before: u32 = regs.cfg_high;
        let changed: u32 = write_bits(before, 5, 5, 1);
        regs.cfg_high = changed;
    }

    /// Lets the high timer run on after it reached its compare value:
    /// clears bit 5 of its configuration word.
    pub fn disable_one_shot_mode_hi(regs: &mut RegisterBlock)
        ensures
            *final(regs) == (RegisterBlock {
                cfg_high: write_bits_spec(old(regs).cfg_high, 5, 5, 0),
                ..*old(regs)
            }),
    {
        let before: u32 = regs.cfg_high;
        let changed: u32 = write_bits(before, 5, 5, 0);
        regs.cfg_high = changed;
    }

    /// Enables the high timer's prescaler: sets bit 6 of its configuration
    /// word.
    pub fn enable_pre_scaler_mode_hi(regs: &mut RegisterBlock)
        ensures
            *final(regs) == (RegisterBlock {
                cfg_high: write_bits_spec(old(regs).cfg_high, 6, 6, 1),
                ..*old(regs)
            }),
    {
        let before: u32 = regs.cfg_high;
        let changed: u32 = write_bits(before, 6, 6, 1);
        regs.cfg_high = changed;
    }

    /// Disables the high timer's prescaler: clears bit 6 of its
    /// configuration word.
    pub fn disable_pre_scaler_mode_hi(regs: &mut RegisterBlock)
        ensures
            *final(regs) == (RegisterBlock {
                cfg_high: write_bits_spec(old(regs).cfg_high, 6, 6, 0),
                ..*old(regs)
            }),
    {
        let before: u32 = regs.cfg_high;
        let changed: u32 = write_bits(before, 6, 6, 0);
        regs.cfg_high = changed;
    }

    /// Clocks the high timer from the FLL: clears bit 7 of its configuration
    /// word.
    pub fn set_ffl_clk_hi(regs: &mut RegisterBlock)
        ensures
            *final(regs) == (RegisterBlock {
                cfg_high: write_bits_spec(old(regs).cfg_high, 7, 7, 0),
                ..*old(regs)
            }),
    {
        let before: u32 = regs.cfg_high;
        let changed: u32 = write_bits(before, 7, 7, 0);
        regs.cfg_high = changed;
    }

    /// Clocks the high timer from the reference clock: sets bit 7 of its
    /// configuration word.
    pub fn set_reference_clk_hi(regs: &mut RegisterBlock)
        ensures
            *final(regs) == (RegisterBlock {
                cfg_high: write_bits_spec(old(regs).cfg_high, 7, 7, 1),
                ..*old(regs)
            }),
    {
        let before: u32 = regs.cfg_high;
        let changed: u32 = write_bits(before, 7, 7, 1);
        regs.cfg_high = changed;
    }

    /// Sets the low timer's counter.
    pub fn set_counter_lo(regs: &mut RegisterBlock, value: u32)
        ensures
            *final(regs) == (RegisterBlock { cnt_low: value, ..*old(regs) }),
    {
        regs.cnt_low = value;
    }

    /// Returns the low timer's counter.
    pub fn get_counter_lo(regs: &RegisterBlock) -> (value: u32)
        ensures
            value == regs.cnt_low,
    {
        regs.cnt_low
    }

    /// Sets the low timer's compare value.
    pub fn set_compare_lo(regs: &mut RegisterBlock, value: u32)
        ensures
            *final(regs) == (RegisterBlock { cmp_low: value, ..*old(regs) }),
    {
        regs.cmp_low = value;
    }

    /// Returns the low timer's compare value.
    pub fn get_compare_lo(regs: &RegisterBlock) -> (value: u32)
        ensures
            value == regs.cmp_low,
    {
        regs.cmp_low
    }

    /// Starts the low timer: writes 1 to its start register. The compare
    /// value is not touched.
    pub fn start_command_lo(regs: &mut RegisterBlock)
        ensures
            *final(regs) == (RegisterBlock { start_low: 1, ..*old(regs) }),
    {
        regs.start_low = 1;
    }

    /// Resets the low timer: writes 1 to its reset register. The compare
    /// value is not touched.
    pub fn reset_command_lo(regs: &mut RegisterBlock)
        ensures
            *final(regs) == (RegisterBlock { reset_low: 1, ..*old(regs) }),
    {
        regs.reset_low = 1;
    }

    /// Sets the high timer's counter.
    pub fn set_counter_hi(regs: &mut RegisterBlock, value: u32)
        ensures
            *final(regs) == (RegisterBlock { cnt_high: value, ..*old(regs) }),
    {
        regs.cnt_high = value;
    }

    /// Returns the high timer's counter.
    pub fn get_counter_hi(regs: &RegisterBlock) -> (value: u32)
        ensures
            value == regs.cnt_high,
    {
        regs.cnt_high
    }

    /// Sets the high timer's compare value.
    pub fn set_compare_hi(regs: &mut RegisterBlock, value: u32)
        ensures
            *final(regs) == (RegisterBlock { cmp_high: value, ..*old(regs) }),
    {
        regs.cmp_high = value;
    }

    /// Returns the high timer's compare value.
    pub fn get_compare_hi(regs: &RegisterBlock) -> (value: u32)
        ensures
            value == regs.cmp_high,
    {
        regs.cmp_high
    }

    /// Starts the high timer: writes 1 to its start register. The compare
    /// value is not touched.
    pub fn start_command_hi(regs: &mut RegisterBlock)
        ensures
            *final(regs) == (RegisterBlock { start_high: 1, ..*old(regs) }),
    {
        regs.start_high = 1;
    }

    /// Resets the high timer: writes 1 to its reset register. The compare
    /// value is not touched.
    pub fn reset_command_hi(regs: &mut RegisterBlock)
        ensures
            *final(regs) == (RegisterBlock { reset_high: 1, ..*old(regs) }),
    {
        regs.reset_high = 1;
    }
}

/// The fields of a configuration word are isolated from each other: a write
/// of the flag at bit `flag` keeps the flag at every other bit `other`, and
/// keeps the prescaler's value unless `flag` lies inside it; a write of the
/// prescaler's value keeps every flag outside it. The flag reads back as the
/// lowest bit of what was written, the prescaler's value as the low eight
/// bits.
pub proof fn lemma_cfg_fields_isolated(cfg: u32, flag: u8, other: u8, value: u32)
    requires
        flag <= 31,
        other <= 31,
        other != flag,
    ensures
        read_bits_spec(write_bits_spec(cfg, flag, flag, value), other, other) == read_bits_spec(
            cfg,
            other,
            other,
        ),
        read_bits_spec(write_bits_spec(cfg, flag, flag, value), flag, flag) == value & 1,
        flag < 8 || flag > 15 ==> read_bits_spec(write_bits_spec(cfg, flag, flag, value), 15, 8)
            == read_bits_spec(cfg, 15, 8),
        flag < 8 || flag > 15 ==> read_bits_spec(write_bits_spec(cfg, 15, 8, value), flag, flag)
            == read_bits_spec(cfg, flag, flag),
        read_bits_spec(write_bits_spec(cfg, 15, 8, value), 15, 8) == value & 0xFF,
{
    lemma_write_keeps_disjoint_field(cfg, flag, flag, value, other, other);
    lemma_read_write_truncates(cfg, flag, flag, value);
    lemma_read_write_truncates(cfg, 15, 8, value);
    lemma_low_bits_of_field_widths();
    if flag < 8 || flag > 15 {
        lemma_write_keeps_disjoint_field(cfg, flag, flag, value, 15, 8);
        lemma_write_keeps_disjoint_field(cfg, 15, 8, value, flag, flag);
    }
}

} // verus!
