//! Core-local interrupt controller: the layout of its register file, the
//! fields of its control words, and the operations on them.
//!
//! The register file is held as plain words. An operation takes the file it
//! works on and says in its contract which word it changes and how; every
//! other word of the file is left as it was.

use crate::bits::{
    lemma_low_bits_of_field_widths, lemma_read_bits_bound, lemma_read_write_fitting,
    lemma_read_write_truncates, lemma_write_keeps_disjoint_field, lemma_write_keeps_outside,
    field_mask, read_bits, read_bits_spec, write_bits, write_bits_spec,
};
use crate::interrupt::{InterruptNumber, MAX_INTERRUPTS};
use crate::peripheral::CLIC;
use vstd::prelude::*;

verus! {

/// Address of the register file.
pub const BASE_ADDRESS: usize = 0x1A20_0000;

/// Offset of the configuration word `cliccfg` in the register file.
pub const CLICCFG_OFFSET: usize = 0x0;

/// Offset of the read-only information word `clicinfo`.
pub const CLICINFO_OFFSET: usize = 0x4;

/// Offset of the control block of interrupt 0. The bytes between the
/// information word and this offset are reserved.
pub const INTCFG_OFFSET: usize = 0x1000;

/// Size of one interrupt's control block: four words.
pub const BLOCK_SIZE: usize = 16;

/// Offset of the pending word in a control block.
pub const IP_OFFSET: usize = 0;

/// Offset of the enable word in a control block.
pub const IE_OFFSET: usize = 4;

/// Offset of the attribute word in a control block.
pub const ATTR_OFFSET: usize = 8;

/// Offset of the control word in a control block.
pub const CTL_OFFSET: usize = 12;

/// Offset of the control block of interrupt `nr` in the register file: the
/// blocks follow each other without a gap.
pub open spec fn offset_of_block(nr: int) -> int {
    INTCFG_OFFSET + BLOCK_SIZE * nr
}

/// Offset of the control block of interrupt `nr` in the register file.
pub fn block_offset(nr: usize) -> (offset: usize)
    requires
        nr < MAX_INTERRUPTS,
    ensures
        offset == offset_of_block(nr as int),
{
    INTCFG_OFFSET + BLOCK_SIZE * nr
}

/// The control blocks of two interrupts do not overlap, none overlaps the
/// two global words, and all lie inside the register file.
pub proof fn lemma_blocks_apart(nr: int, other: int)
    requires
        0 <= nr < other < MAX_INTERRUPTS,
    ensures
        CLICINFO_OFFSET + 4 <= offset_of_block(nr),
        offset_of_block(nr) + BLOCK_SIZE <= offset_of_block(other),
        offset_of_block(other) + BLOCK_SIZE <= INTCFG_OFFSET + BLOCK_SIZE * MAX_INTERRUPTS,
{
}

/// Trigger enum
#[derive(Copy, Clone, Debug, Eq, PartialEq, Structural)]
pub enum Trigger {
    /// Encoded as 0.
    LevelPositive,
    /// Encoded as 1.
    EdgePositive,
    /// Encoded as 2.
    LevelNegative,
    /// Encoded as 3.
    EdgeNegative,
}

impl Trigger {
    /// The two-bit encoding of the trigger.
    pub open spec fn encoding(self) -> u32 {
        match self {
            Trigger::LevelPositive => 0,
            Trigger::EdgePositive => 1,
            Trigger::LevelNegative => 2,
            Trigger::EdgeNegative => 3,
        }
    }

    /// The two-bit encoding of the trigger.
    pub fn bits(self) -> (bits: u32)
        ensures
            bits == self.encoding(),
    {
        match self {
            Trigger::LevelPositive => 0,
            Trigger::EdgePositive => 1,
            Trigger::LevelNegative => 2,
            Trigger::EdgeNegative => 3,
        }
    }
}

/// Interrupt block: the four control words of one interrupt.
#[derive(Copy, Clone, Debug, Eq, PartialEq, Structural)]
pub struct InterruptBlock {
    /// Pending word: bit 0 is the pending flag.
    pub ip: u32,
    /// Enable word: bit 0 is the enable flag.
    pub ie: u32,
    /// Attribute word: bit 0 is the selective-hardware-vectoring flag, bits
    /// 1 and 2 the trigger.
    pub attr: u32,
    /// Control word: bits 0 to 7 are the priority.
    pub ctl: u32,
}

impl InterruptBlock {
    /// Whether the interrupt is enabled: bit 0 of the enable word.
    pub open spec fn enabled(self) -> bool {
        read_bits_spec(self.ie, 0, 0) == 1
    }

    /// Whether the interrupt is pending: bit 0 of the pending word.
    pub open spec fn pending(self) -> bool {
        read_bits_spec(self.ip, 0, 0) == 1
    }

    /// The priority: the low byte of the control word.
    pub open spec fn priority(self) -> u32 {
        read_bits_spec(self.ctl, 7, 0)
    }

    /// Whether selective hardware vectoring is on: bit 0 of the attribute
    /// word.
    pub open spec fn shv(self) -> bool {
        read_bits_spec(self.attr, 0, 0) == 1
    }

    /// The encoding of the trigger: bits 1 and 2 of the attribute word.
    pub open spec fn trigger(self) -> u32 {
        read_bits_spec(self.attr, 2, 1)
    }

    /// The block after the interrupt was disabled: the enable word is 0.
    pub open spec fn masked(self) -> InterruptBlock {
        InterruptBlock { ie: 0, ..self }
    }

    /// The block after the interrupt was enabled: the enable word is 1.
    pub open spec fn unmasked(self) -> InterruptBlock {
        InterruptBlock { ie: 1, ..self }
    }

    /// The block after the interrupt was forced pending: the pending word
    /// is 1.
    pub open spec fn pended(self) -> InterruptBlock {
        InterruptBlock { ip: 1, ..self }
    }

    /// The block after the pending state was cleared: the pending word is 0.
    pub open spec fn unpended(self) -> InterruptBlock {
        InterruptBlock { ip: 0, ..self }
    }

    /// The block after the priority was set: the low byte of the control
    /// word is `prio`, the bits above it are kept.
    pub open spec fn with_priority(self, prio: u8) -> InterruptBlock {
        InterruptBlock { ctl: write_bits_spec(self.ctl, 7, 0, prio as u32), ..self }
    }

    /// The block after selective hardware vectoring was switched on or off:
    /// bit 0 of the attribute word says so, its other bits are kept.
    pub open spec fn with_shv(self, on: bool) -> InterruptBlock {
        InterruptBlock {
            attr: write_bits_spec(
                self.attr,
                0,
                0,
                if on {
                    1
                } else {
                    0
                },
            ),
            ..self
        }
    }

    /// The block after the trigger was set: bits 1 and 2 of the attribute
    /// word hold the trigger's encoding, its other bits are kept.
    pub open spec fn with_trigger(self, trig: Trigger) -> InterruptBlock {
        InterruptBlock { attr: write_bits_spec(self.attr, 2, 1, trig.encoding()), ..self }
    }

    /// Disables the interrupt.
    pub fn mask(&mut self)
        ensures
            *final(self) == old(self).masked(),
    {
        self.ie = 0;
    }

    /// Enables the interrupt.
    ///
    /// Enabling an interrupt can break a critical section that relies on
    /// the interrupt being masked. It is for the caller to know that none
    /// does.
    pub fn unmask(&mut self)
        ensures
            *final(self) == old(self).unmasked(),
    {
        self.ie = 1;
    }

    /// Checks if the interrupt is enabled
    pub fn is_enabled(&self) -> (enabled: bool)
        ensures
            enabled == self.enabled(),
    {
        read_bits(self.ie, 0, 0) == 1
    }

    /// Checks if the interrupt is pending
    pub fn is_pending(&self) -> (pending: bool)
        ensures
            pending == self.pending(),
    {
        read_bits(self.ip, 0, 0) == 1
    }

    /// Forces the interrupt into pending state
    pub fn pend(&mut self)
        ensures
            *final(self) == old(self).pended(),
    {
        self.ip = 1;
    }

    /// Clears the interrupt's pending state
    pub fn unpend(&mut self)
        ensures
            *final(self) == old(self).unpended(),
    {
        self.ip = 0;
    }

    /// Returns the priority of the interrupt
    pub fn get_priority(&self) -> (prio: u8)
        ensures
            prio == self.priority(),
    {
        proof {
            lemma_read_bits_bound(self.ctl, 7, 0);
            lemma_low_bits_of_field_widths();
        }
        read_bits(self.ctl, 7, 0) as u8
    }

    /// Sets the priority of the interrupt to `prio`
    pub fn set_priority(&mut self, prio: u8)
        ensures
            *final(self) == old(self).with_priority(prio),
    {
        self.ctl = write_bits(self.ctl, 7, 0, prio as u32);
    }

    /// Enables selective hardware vectoring of the interrupt
    pub fn enable_shv(&mut self)
        ensures
            *final(self) == old(self).with_shv(true),
    {
        let before: u32 = self.attr;
        let edited: u32 = write_bits(before, 0, 0, 1);

        self.attr = edited;
    }

    /// Disables selective hardware vectoring of the interrupt
    pub fn disable_shv(&mut self)
        ensures
            *final(self) == old(self).with_shv(false),
    {
        let before: u32 = self.attr;
        let edited: u32 = write_bits(before, 0, 0, 0);

        self.attr = edited;
    }

    /// Sets the trigger of the interrupt
    pub fn set_trig(&mut self, trig: Trigger)
        ensures
            *final(self) == old(self).with_trigger(trig),
    {
        let before: u32 = self.attr;
        let edited: u32 = write_bits(before, 2, 1, trig.bits());
        self.attr = edited;
    }
}

/// The contents of a register file: the two global words and the control
/// blocks of the interrupt lines, in the order of their numbers.
#[verifier::ext_equal]
pub struct Registers {
    /// Configuration word: bit 0 is clear where hardware vectoring is
    /// implemented, bits 1 to 4 are the number of level bits, bits 5 and 6
    /// the number of mode bits.
    pub cliccfg: u32,
    /// Information word: bits 0 to 12 are the largest number of interrupts
    /// supported, bits 13 to 20 the version, bits 21 to 24 the number of
    /// priority bits implemented, bits 25 to 30 the number of interrupts
    /// configured.
    pub clicinfo: u32,
    /// Control blocks, one per interrupt line.
    pub intcfg: Seq<InterruptBlock>,
}

impl Registers {
    /// The same contents with the control block of line `nr` replaced.
    pub open spec fn with_block(self, nr: int, block: InterruptBlock) -> Registers {
        Registers { intcfg: self.intcfg.update(nr, block), ..self }
    }

    /// The number of mode bits: bits 5 and 6 of the configuration word.
    pub open spec fn mode_bit_width(self) -> u32 {
        read_bits_spec(self.cliccfg, 6, 5)
    }

    /// The number of level bits: bits 1 to 4 of the configuration word.
    pub open spec fn level_bit_width(self) -> u32 {
        read_bits_spec(self.cliccfg, 4, 1)
    }

    /// Whether hardware vectoring is implemented: it is where bit 0 of the
    /// configuration word is clear.
    pub open spec fn interrupt_vectoring(self) -> bool {
        read_bits_spec(self.cliccfg, 0, 0) != 1
    }

    /// The number of interrupts configured: bits 25 to 30 of the information
    /// word.
    pub open spec fn num_int(self) -> u32 {
        read_bits_spec(self.clicinfo, 30, 25)
    }

    /// The number of priority bits implemented: bits 21 to 24 of the
    /// information word.
    pub open spec fn possible_level_bits(self) -> u32 {
        read_bits_spec(self.clicinfo, 24, 21)
    }

    /// The version: bits 13 to 20 of the information word.
    pub open spec fn version(self) -> u32 {
        read_bits_spec(self.clicinfo, 20, 13)
    }

    /// The largest number of interrupts supported: bits 0 to 12 of the
    /// information word.
    pub open spec fn max_interrupts(self) -> u32 {
        read_bits_spec(self.clicinfo, 12, 0)
    }

    /// The contents after the number of mode bits was set: bits 5 and 6 of
    /// the configuration word are the low two bits of `nr_bits`, everything
    /// else is kept.
    pub open spec fn with_mode_bit_width(self, nr_bits: u32) -> Registers {
        Registers { cliccfg: write_bits_spec(self.cliccfg, 6, 5, nr_bits), ..self }
    }

    /// The contents after the number of level bits was set: bits 1 to 4 of
    /// the configuration word are the low four bits of `nr_bits`, everything
    /// else is kept.
    pub open spec fn with_level_bit_width(self, nr_bits: u32) -> Registers {
        Registers { cliccfg: write_bits_spec(self.cliccfg, 4, 1, nr_bits), ..self }
    }
}

/// Register block: the configuration word, the information word, and the
/// control blocks of the interrupt lines that are implemented, at most
/// `MAX_INTERRUPTS` of them.
pub struct RegisterBlock {
    cliccfg: u32,
    clicinfo: u32,
    intcfg: Vec<InterruptBlock>,
}

impl View for RegisterBlock {
    type V = Registers;

    closed spec fn view(&self) -> Registers {
        Registers { cliccfg: self.cliccfg, clicinfo: self.clicinfo, intcfg: self.intcfg@ }
    }
}

impl RegisterBlock {
    #[verifier::type_invariant]
    spec fn lines_fit(&self) -> bool {
        self.intcfg.len() <= MAX_INTERRUPTS
    }

    /// A register file with the given global words and `lines` interrupt
    /// lines, every control word of which is 0. A request for more lines
    /// than the layout has room for gives `MAX_INTERRUPTS` lines.
    pub fn new(cliccfg: u32, clicinfo: u32, lines: usize) -> (regs: RegisterBlock)
        ensures
            regs@.cliccfg == cliccfg,
            regs@.clicinfo == clicinfo,
            regs@.intcfg.len() == if lines <= MAX_INTERRUPTS {
                lines
            } else {
                MAX_INTERRUPTS
            },
            forall|nr: int|
                0 <= nr < regs@.intcfg.len() ==> #[trigger] regs@.intcfg[nr] == (InterruptBlock {
                    ip: 0,
                    ie: 0,
                    attr: 0,
                    ctl: 0,
                }),
    {
        let count: usize = if lines <= MAX_INTERRUPTS {
            lines
        } else {
            MAX_INTERRUPTS
        };
        let mut intcfg: Vec<InterruptBlock> = Vec::new();
        let mut nr: usize = 0;
        while nr < count
            invariant
                nr <= count <= MAX_INTERRUPTS,
                intcfg.len() == nr,
                forall|k: int|
                    0 <= k < nr ==> #[trigger] intcfg[k] == (InterruptBlock {
                        ip: 0,
                        ie: 0,
                        attr: 0,
                        ctl: 0,
                    }),
            decreases count - nr,
        {
            intcfg.push(InterruptBlock { ip: 0, ie: 0, attr: 0, ctl: 0 });
            nr += 1;
        }
        RegisterBlock { cliccfg, clicinfo, intcfg }
    }

    /// The number of interrupt lines in the register file. No register file
    /// has more lines than the layout has room for.
    pub fn lines(&self) -> (lines: usize)
        ensures
            lines == self@.intcfg.len(),
            lines <= MAX_INTERRUPTS,
    {
        proof {
            use_type_invariant(self);
        }
        self.intcfg.len()
    }

    /// The configuration word.
    pub fn cliccfg(&self) -> (word: u32)
        ensures
            word == self@.cliccfg,
    {
        self.cliccfg
    }

    /// The information word.
    pub fn clicinfo(&self) -> (word: u32)
        ensures
            word == self@.clicinfo,
    {
        self.clicinfo
    }

    /// The control block of line `nr`.
    pub fn block(&self, nr: usize) -> (block: InterruptBlock)
        requires
            nr < self@.intcfg.len(),
        ensures
            block == self@.intcfg[nr as int],
    {
        self.intcfg[nr]
    }

    /// Replaces the control block of line `nr`.
    pub fn set_block(&mut self, nr: usize, block: InterruptBlock)
        requires
            nr < old(self)@.intcfg.len(),
        ensures
            final(self)@ == old(self)@.with_block(nr as int, block),
    {
        proof {
            use_type_invariant(&*self);
        }
        self.intcfg[nr] = block;
    }
}

impl CLIC {
    /// Disables `interrupt`
    pub fn mask<I>(regs: &mut RegisterBlock, interrupt: I) where I: InterruptNumber
        requires
            interrupt.index() < old(regs)@.intcfg.len(),
        ensures
            final(regs)@ == old(regs)@.with_block(
                interrupt.index() as int,
                old(regs)@.intcfg[interrupt.index() as int].masked(),
            ),
    {
        let nr: usize = interrupt.number();
        let mut block = regs.block(nr);
        block.mask();
        regs.set_block(nr, block);
    }

    /// Enables `interrupt`
    ///
    /// Enabling an interrupt can break a critical section that relies on
    /// the interrupt being masked. It is for the caller to know that none
    /// does.
    pub fn unmask<I>(regs: &mut RegisterBlock, interrupt: I) where I: InterruptNumber
        requires
            interrupt.index() < old(regs)@.intcfg.len(),
        ensures
            final(regs)@ == old(regs)@.with_block(
                interrupt.index() as int,
                old(regs)@.intcfg[interrupt.index() as int].unmasked(),
            ),
    {
        let nr: usize = interrupt.number();
        let mut block = regs.block(nr);
        block.unmask();
        regs.set_block(nr, block);
    }

    /// Checks if `interrupt` is enabled
    pub fn is_enabled<I>(regs: &RegisterBlock, interrupt: I) -> (enabled: bool) where
        I: InterruptNumber,

        requires
            interrupt.index() < regs@.intcfg.len(),
        ensures
            enabled == regs@.intcfg[interrupt.index() as int].enabled(),
    {
        let nr: usize = interrupt.number();
        regs.block(nr).is_enabled()
    }

    /// Checks if `interrupt` is pending
    pub fn is_pending<I>(regs: &RegisterBlock, interrupt: I) -> (pending: bool) where
        I: InterruptNumber,

        requires
            interrupt.index() < regs@.intcfg.len(),
        ensures
            pending == regs@.intcfg[interrupt.index() as int].pending(),
    {
        let nr: usize = interrupt.number();
        regs.block(nr).is_pending()
    }

    /// Returns the CLIC priority of `interrupt`
    pub fn get_priority<I>(regs: &RegisterBlock, interrupt: I) -> (prio: u8) where
        I: InterruptNumber,

        requires
            interrupt.index() < regs@.intcfg.len(),
        ensures
            prio == regs@.intcfg[interrupt.index() as int].priority(),
    {
        let nr: usize = interrupt.number();
        regs.block(nr).get_priority()
    }

    /// Sets the "priority" of `interrupt` to `prio`
    pub fn set_priority<I>(&mut self, regs: &mut RegisterBlock, interrupt: I, prio: u8) where
        I: InterruptNumber,

        requires
            interrupt.index() < old(regs)@.intcfg.len(),
        ensures
            final(regs)@ == old(regs)@.with_block(
                interrupt.index() as int,
                old(regs)@.intcfg[interrupt.index() as int].with_priority(prio),
            ),
    {
        let nr: usize = interrupt.number();
        let mut block = regs.block(nr);
        block.set_priority(prio);
        regs.set_block(nr, block);
    }

    /// Is `interrupt` active or pre-empted and stacked: whether the lowest
    /// twelve bits of the trap-cause word `mcause` are its number. The
    /// answer holds for the moment at which `mcause` was read.
    pub fn is_active<I>(mcause: usize, interrupt: I) -> (active: bool) where I: InterruptNumber
        ensures
            active == ((mcause & 0x0000_0FFF) == interrupt.index()),
    {
        let nr: usize = interrupt.number();

        let mask: usize = 0x0000_0FFF;

        (mcause & mask) == nr
    }

    /// Forces `interrupt` into pending state
    pub fn pend<I>(regs: &mut RegisterBlock, interrupt: I) where I: InterruptNumber
        requires
            interrupt.index() < old(regs)@.intcfg.len(),
        ensures
            final(regs)@ == old(regs)@.with_block(
                interrupt.index() as int,
                old(regs)@.intcfg[interrupt.index() as int].pended(),
            ),
    {
        let nr: usize = interrupt.number();
        let mut block = regs.block(nr);
        block.pend();
        regs.set_block(nr, block);
    }

    /// Clears `interrupt`'s pending state
    pub fn unpend<I>(regs: &mut RegisterBlock, interrupt: I) where I: InterruptNumber
        requires
            interrupt.index() < old(regs)@.intcfg.len(),
        ensures
            final(regs)@ == old(regs)@.with_block(
                interrupt.index() as int,
                old(regs)@.intcfg[interrupt.index() as int].unpended(),
            ),
    {
        let nr: usize = interrupt.number();
        let mut block = regs.block(nr);
        block.unpend();
        regs.set_block(nr, block);
    }

    /// Enables "selective hardware vectoring" of `interrupt`
    pub fn enable_shv<I>(&mut self, regs: &mut RegisterBlock, interrupt: I) where
        I: InterruptNumber,

        requires
            interrupt.index() < old(regs)@.intcfg.len(),
        ensures
            final(regs)@ == old(regs)@.with_block(
                interrupt.index() as int,
                old(regs)@.intcfg[interrupt.index() as int].with_shv(true),
            ),
    {
        let nr: usize = interrupt.number();
        let mut block = regs.block(nr);
        block.enable_shv();
        regs.set_block(nr, block);
    }

    /// Disables "selective hardware vectoring" of `interrupt`
    pub fn disable_shv<I>(&mut self, regs: &mut RegisterBlock, interrupt: I) where
        I: InterruptNumber,

        requires
            interrupt.index() < old(regs)@.intcfg.len(),
        ensures
            final(regs)@ == old(regs)@.with_block(
                interrupt.index() as int,
                old(regs)@.intcfg[interrupt.index() as int].with_shv(false),
            ),
    {
        let nr: usize = interrupt.number();
        let mut block = regs.block(nr);
        block.disable_shv();
        regs.set_block(nr, block);
    }

    /// Sets "trigger" of `interrupt`
    pub fn set_trig<I>(&mut self, regs: &mut RegisterBlock, interrupt: I, trig: Trigger) where
        I: InterruptNumber,

        requires
            interrupt.index() < old(regs)@.intcfg.len(),
        ensures
            final(regs)@ == old(regs)@.with_block(
                interrupt.index() as int,
                old(regs)@.intcfg[interrupt.index() as int].with_trigger(trig),
            ),
    {
        let nr: usize = interrupt.number();
        let mut block = regs.block(nr);
        block.set_trig(trig);
        regs.set_block(nr, block);
    }

    /// Sets number of bits used for mode int attr fields
    pub fn set_mode_bit_width(&mut self, regs: &mut RegisterBlock, nr_bits: u32)
        ensures
            final(regs)@ == old(regs)@.with_mode_bit_width(nr_bits),
    {
        let before: u32 = regs.cliccfg;
        let edited: u32 = write_bits(before, 6, 5, nr_bits);
        proof {
            use_type_invariant(&*regs);
        }
        regs.cliccfg = edited;
    }

    /// Gets number of bits used for mode int attr fields
    pub fn get_mode_bit_width(&mut self, regs: &RegisterBlock) -> (nr_bits: u32)
        ensures
            nr_bits == regs@.mode_bit_width(),
    {
        let before: u32 = regs.cliccfg;
        read_bits(before, 6, 5)
    }

    /// Sets number of bits used for interrupt level value
    pub fn set_level_bit_width(&mut self, regs: &mut RegisterBlock, nr_bits: u32)
        ensures
            final(regs)@ == old(regs)@.with_level_bit_width(nr_bits),
    {
        let before: u32 = regs.cliccfg;
        let edited: u32 = write_bits(before, 4, 1, nr_bits);
        proof {
            use_type_invariant(&*regs);
        }
        regs.cliccfg = edited;
    }

    /// Gets number of bits used for interrupt level value
    pub fn get_level_bit_width(&mut self, regs: &RegisterBlock) -> (nr_bits: u32)
        ensures
            nr_bits == regs@.level_bit_width(),
    {
        let before: u32 = regs.cliccfg;
        read_bits(before, 4, 1)
    }

    /// Gets flag if vectored interrupt handling is implemented in hardware
    pub fn has_interrupt_vectoring(&mut self, regs: &RegisterBlock) -> (implemented: bool)
        ensures
            implemented == regs@.interrupt_vectoring(),
    {
        let before: u32 = regs.cliccfg;
        read_bits(before, 0, 0) != 1
    }

    /// Gets actual number of maximum interrupt inputs supported in this
    /// implementation
    pub fn get_num_int(&mut self, regs: &RegisterBlock) -> (count: u32)
        ensures
            count == regs@.num_int(),
    {
        let before: u32 = regs.clicinfo;
        read_bits(before, 30, 25)
    }

    /// Gets how many hardware bits are actually implemented in the
    /// priority of the control words
    pub fn get_possible_level_bits(&mut self, regs: &RegisterBlock) -> (nr_bits: u32)
        ensures
            nr_bits == regs@.possible_level_bits(),
    {
        let before: u32 = regs.clicinfo;
        read_bits(before, 24, 21)
    }

    /// Gets version
    pub fn get_version(&mut self, regs: &RegisterBlock) -> (version: u32)
        ensures
            version == regs@.version(),
    {
        let before: u32 = regs.clicinfo;
        read_bits(before, 20, 13)
    }

    /// Gets number of maximum interrupt inputs supported
    pub fn get_max_interrupts(&mut self, regs: &RegisterBlock) -> (count: u32)
        ensures
            count == regs@.max_interrupts(),
    {
        let before: u32 = regs.clicinfo;
        read_bits(before, 12, 0)
    }
}

/// Every field of the control words and of the two global words, written
/// out as a shift and a mask of its word.
pub proof fn lemma_fields_as_shifts(word: u32)
    by (bit_vector)
    ensures
        read_bits_spec(word, 0, 0) == word & 0x1,
        read_bits_spec(word, 2, 1) == (word >> 1) & 0x3,
        read_bits_spec(word, 7, 0) == word & 0xFF,
        read_bits_spec(word, 4, 1) == (word >> 1) & 0xF,
        read_bits_spec(word, 6, 5) == (word >> 5) & 0x3,
        read_bits_spec(word, 12, 0) == word & 0x1FFF,
        read_bits_spec(word, 20, 13) == (word >> 13) & 0xFF,
        read_bits_spec(word, 24, 21) == (word >> 21) & 0xF,
        read_bits_spec(word, 30, 25) == (word >> 25) & 0x3F,
{
}

/// An interrupt that was masked reads as disabled, one that was unmasked as
/// enabled; one that was forced pending reads as pending, one whose pending
/// state was cleared does not.
pub proof fn lemma_flags_read_back(block: InterruptBlock)
    ensures
        !block.masked().enabled(),
        block.unmasked().enabled(),
        block.pended().pending(),
        !block.unpended().pending(),
{
    lemma_fields_as_shifts(0);
    lemma_fields_as_shifts(1);
    assert(0u32 & 0x1 == 0 && 1u32 & 0x1 == 1) by (bit_vector);
}

/// The priority that was set is the priority that is read, and the bits of
/// the control word above the priority are kept.
pub proof fn lemma_priority_reads_back(block: InterruptBlock, prio: u8)
    ensures
        block.with_priority(prio).priority() == prio,
        block.with_priority(prio).ctl & !0xFFu32 == block.ctl & !0xFFu32,
{
    lemma_low_bits_of_field_widths();
    lemma_read_write_fitting(block.ctl, 7, 0, prio as u32);
    lemma_write_keeps_outside(block.ctl, 7, 0, prio as u32);
    assert(field_mask(7, 0) == 0xFF) by (bit_vector);
}

/// The fields of the attribute word are isolated from each other: switching
/// selective hardware vectoring keeps the trigger, setting the trigger keeps
/// the vectoring flag, and each field reads back what was written to it. So
/// a trigger that was set is still read after vectoring was switched on.
pub proof fn lemma_attr_fields_isolated(block: InterruptBlock, on: bool, trig: Trigger)
    ensures
        block.with_shv(on).trigger() == block.trigger(),
        block.with_trigger(trig).shv() == block.shv(),
        block.with_shv(on).shv() == on,
        block.with_trigger(trig).trigger() == trig.encoding(),
        block.with_trigger(trig).with_shv(on).trigger() == trig.encoding(),
        block.with_shv(on).with_trigger(trig).shv() == on,
{
    let flag: u32 = if on {
        1
    } else {
        0
    };
    let attr: u32 = block.attr;
    lemma_low_bits_of_field_widths();
    lemma_write_keeps_disjoint_field(attr, 0, 0, flag, 2, 1);
    lemma_write_keeps_disjoint_field(attr, 2, 1, trig.encoding(), 0, 0);
    lemma_read_write_fitting(attr, 0, 0, flag);
    lemma_read_write_fitting(attr, 2, 1, trig.encoding());
    let with_trig: u32 = write_bits_spec(attr, 2, 1, trig.encoding());
    lemma_write_keeps_disjoint_field(with_trig, 0, 0, flag, 2, 1);
    let with_flag: u32 = write_bits_spec(attr, 0, 0, flag);
    lemma_write_keeps_disjoint_field(with_flag, 2, 1, trig.encoding(), 0, 0);
}

/// An operation on a control block changes one of its four words and keeps
/// the other three.
pub proof fn lemma_one_word_per_operation(
    block: InterruptBlock,
    prio: u8,
    on: bool,
    trig: Trigger,
)
    ensures
        block.masked() == (InterruptBlock { ie: block.masked().ie, ..block }),
        block.unmasked() == (InterruptBlock { ie: block.unmasked().ie, ..block }),
        block.pended() == (InterruptBlock { ip: block.pended().ip, ..block }),
        block.unpended() == (InterruptBlock { ip: block.unpended().ip, ..block }),
        block.with_priority(prio) == (InterruptBlock {
            ctl: block.with_priority(prio).ctl,
            ..block
        }),
        block.with_shv(on) == (InterruptBlock { attr: block.with_shv(on).attr, ..block }),
        block.with_trigger(trig) == (InterruptBlock {
            attr: block.with_trigger(trig).attr,
            ..block
        }),
{
}

/// An operation on one interrupt's control block leaves the control blocks
/// of all other interrupts, and the two global words, as they were.
pub proof fn lemma_other_lines_untouched(
    regs: Registers,
    nr: int,
    block: InterruptBlock,
    other: int,
)
    requires
        0 <= nr < regs.intcfg.len(),
        0 <= other < regs.intcfg.len(),
        other != nr,
    ensures
        regs.with_block(nr, block).intcfg[other] == regs.intcfg[other],
        regs.with_block(nr, block).intcfg[nr] == block,
        regs.with_block(nr, block).intcfg.len() == regs.intcfg.len(),
        regs.with_block(nr, block).cliccfg == regs.cliccfg,
        regs.with_block(nr, block).clicinfo == regs.clicinfo,
{
}

/// A trigger that was set on a line is still read there after selective
/// hardware vectoring was switched on for the line, the vectoring flag reads
/// as set, and no other line has changed.
pub proof fn lemma_trigger_survives_enable_shv(
    regs: Registers,
    nr: int,
    trig: Trigger,
    other: int,
)
    requires
        0 <= nr < regs.intcfg.len(),
        0 <= other < regs.intcfg.len(),
        other != nr,
    ensures
        ({
            let with_trig = regs.with_block(nr, regs.intcfg[nr].with_trigger(trig));
            let with_shv = with_trig.with_block(nr, with_trig.intcfg[nr].with_shv(true));
            &&& with_shv.intcfg[nr].trigger() == trig.encoding()
            &&& with_shv.intcfg[nr].shv()
            &&& with_shv.intcfg[other] == regs.intcfg[other]
        }),
{
    lemma_attr_fields_isolated(regs.intcfg[nr], true, trig);
    lemma_attr_fields_isolated(regs.intcfg[nr].with_trigger(trig), true, trig);
}

/// A line that was masked reads as disabled and one that was unmasked as
/// enabled, whatever was done to it before; no other line has changed.
pub proof fn lemma_mask_shows_in_is_enabled(regs: Registers, nr: int, other: int)
    requires
        0 <= nr < regs.intcfg.len(),
        0 <= other < regs.intcfg.len(),
        other != nr,
    ensures
        !regs.with_block(nr, regs.intcfg[nr].masked()).intcfg[nr].enabled(),
        regs.with_block(nr, regs.intcfg[nr].unmasked()).intcfg[nr].enabled(),
        regs.with_block(nr, regs.intcfg[nr].masked()).intcfg[other] == regs.intcfg[other],
        regs.with_block(nr, regs.intcfg[nr].unmasked()).intcfg[other] == regs.intcfg[other],
{
    lemma_flags_read_back(regs.intcfg[nr]);
}

/// The fields of the configuration word are isolated from each other: a
/// write of the number of mode bits keeps the number of level bits and the
/// vectoring flag, and a write of the number of level bits keeps the number
/// of mode bits and the vectoring flag. Each number reads back as the low
/// bits of what was written: two bits of a number of mode bits, four of a
/// number of level bits. Neither write touches the information word or a
/// control block.
pub proof fn lemma_cliccfg_fields_isolated(regs: Registers, nr_bits: u32)
    ensures
        regs.with_mode_bit_width(nr_bits).level_bit_width() == regs.level_bit_width(),
        regs.with_mode_bit_width(nr_bits).interrupt_vectoring() == regs.interrupt_vectoring(),
        regs.with_level_bit_width(nr_bits).mode_bit_width() == regs.mode_bit_width(),
        regs.with_level_bit_width(nr_bits).interrupt_vectoring() == regs.interrupt_vectoring(),
        regs.with_mode_bit_width(nr_bits).mode_bit_width() == nr_bits & 0x3,
        regs.with_level_bit_width(nr_bits).level_bit_width() == nr_bits & 0xF,
        regs.with_mode_bit_width(nr_bits).clicinfo == regs.clicinfo,
        regs.with_mode_bit_width(nr_bits).intcfg == regs.intcfg,
        regs.with_level_bit_width(nr_bits).clicinfo == regs.clicinfo,
        regs.with_level_bit_width(nr_bits).intcfg == regs.intcfg,
{
    let cliccfg: u32 = regs.cliccfg;
    lemma_low_bits_of_field_widths();
    lemma_write_keeps_disjoint_field(cliccfg, 6, 5, nr_bits, 4, 1);
    lemma_write_keeps_disjoint_field(cliccfg, 6, 5, nr_bits, 0, 0);
    lemma_write_keeps_disjoint_field(cliccfg, 4, 1, nr_bits, 6, 5);
    lemma_write_keeps_disjoint_field(cliccfg, 4, 1, nr_bits, 0, 0);
    lemma_read_write_truncates(cliccfg, 6, 5, nr_bits);
    lemma_read_write_truncates(cliccfg, 4, 1, nr_bits);
}

} // verus!
