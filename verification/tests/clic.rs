use riscv_clic::interrupt::{InterruptNumber, MAX_INTERRUPTS};
use riscv_clic::peripheral::clic::{
    block_offset, InterruptBlock, RegisterBlock, Trigger, ATTR_OFFSET, BASE_ADDRESS, BLOCK_SIZE,
    CLICCFG_OFFSET, CLICINFO_OFFSET, CTL_OFFSET, IE_OFFSET, INTCFG_OFFSET, IP_OFFSET,
};
use riscv_clic::peripheral::{Latch, Peripherals, CLIC};

fn handle() -> CLIC {
    let mut latch = Latch::new();
    Peripherals::steal(&mut latch).CLIC
}

const ZERO: InterruptBlock = InterruptBlock { ip: 0, ie: 0, attr: 0, ctl: 0 };

#[test]
fn new_register_file_is_all_zero() {
    let regs = RegisterBlock::new(0x12, 0x34, 8);
    assert_eq!(regs.lines(), 8);
    assert_eq!(regs.cliccfg(), 0x12);
    assert_eq!(regs.clicinfo(), 0x34);
    for nr in 0..8 {
        assert_eq!(regs.block(nr), ZERO);
    }
}

#[test]
fn new_register_file_has_at_most_the_layouts_lines() {
    assert_eq!(RegisterBlock::new(0, 0, 0).lines(), 0);
    assert_eq!(RegisterBlock::new(0, 0, MAX_INTERRUPTS).lines(), 4096);
    assert_eq!(RegisterBlock::new(0, 0, MAX_INTERRUPTS + 1).lines(), 4096);
    assert_eq!(RegisterBlock::new(0, 0, usize::MAX).lines(), 4096);
}

#[test]
fn layout_matches_the_register_map() {
    assert_eq!(BASE_ADDRESS, 0x1A20_0000);
    assert_eq!(CLICCFG_OFFSET, 0);
    assert_eq!(CLICINFO_OFFSET, 4);
    assert_eq!(INTCFG_OFFSET, 0x1000);
    assert_eq!(BLOCK_SIZE, 16);
    assert_eq!((IP_OFFSET, IE_OFFSET, ATTR_OFFSET, CTL_OFFSET), (0, 4, 8, 12));
    assert_eq!(block_offset(0), 0x1000);
    assert_eq!(block_offset(1), 0x1010);
    assert_eq!(block_offset(5), 0x1050);
    assert_eq!(block_offset(4095), 0x1000 + 16 * 4095);
}

#[test]
fn interrupt_numbers_convert_to_their_index() {
    assert_eq!(5usize.number(), 5);
    assert_eq!(4095u16.number(), 4095);
    assert_eq!(0u16.number(), 0);
}

#[test]
fn mask_then_is_enabled_is_false() {
    let mut regs = RegisterBlock::new(0, 0, 16);
    CLIC::unmask(&mut regs, 5usize);
    CLIC::mask(&mut regs, 5usize);
    assert!(!CLIC::is_enabled(&regs, 5usize));
    assert_eq!(regs.block(5).ie, 0);
}

#[test]
fn unmask_then_is_enabled_is_true() {
    let mut regs = RegisterBlock::new(0, 0, 16);
    CLIC::unmask(&mut regs, 5usize);
    assert!(CLIC::is_enabled(&regs, 5usize));
    assert_eq!(regs.block(5).ie, 1);
}

#[test]
fn unmask_touches_one_line_and_one_word() {
    let mut regs = RegisterBlock::new(0x7F, 0x3E00_0000, 16);
    CLIC::unmask(&mut regs, 5u16);
    for nr in 0..16 {
        if nr == 5 {
            assert_eq!(regs.block(nr), InterruptBlock { ie: 1, ..ZERO });
        } else {
            assert_eq!(regs.block(nr), ZERO);
        }
    }
    assert_eq!(regs.cliccfg(), 0x7F);
    assert_eq!(regs.clicinfo(), 0x3E00_0000);
    assert_eq!(regs.lines(), 16);
}

#[test]
fn is_enabled_reads_bit_zero_only() {
    let mut regs = RegisterBlock::new(0, 0, 4);
    regs.set_block(2, InterruptBlock { ie: 0xFFFF_FFFE, ..ZERO });
    assert!(!CLIC::is_enabled(&regs, 2usize));
    regs.set_block(2, InterruptBlock { ie: 0x8000_0001, ..ZERO });
    assert!(CLIC::is_enabled(&regs, 2usize));
}

#[test]
fn pend_and_unpend() {
    let mut regs = RegisterBlock::new(0, 0, 4);
    assert!(!CLIC::is_pending(&regs, 3usize));
    CLIC::pend(&mut regs, 3usize);
    assert!(CLIC::is_pending(&regs, 3usize));
    assert_eq!(regs.block(3), InterruptBlock { ip: 1, ..ZERO });
    assert!(!CLIC::is_pending(&regs, 2usize));
    CLIC::unpend(&mut regs, 3usize);
    assert!(!CLIC::is_pending(&regs, 3usize));
    assert_eq!(regs.block(3), ZERO);
}

#[test]
fn is_pending_reads_bit_zero_only() {
    let mut regs = RegisterBlock::new(0, 0, 1);
    regs.set_block(0, InterruptBlock { ip: 0b10, ..ZERO });
    assert!(!CLIC::is_pending(&regs, 0usize));
    regs.set_block(0, InterruptBlock { ip: 0b11, ..ZERO });
    assert!(CLIC::is_pending(&regs, 0usize));
}

#[test]
fn priority_is_the_low_byte_of_the_control_word() {
    let mut regs = RegisterBlock::new(0, 0, 4);
    regs.set_block(1, InterruptBlock { ctl: 0xABCD_12EF, ..ZERO });
    assert_eq!(CLIC::get_priority(&regs, 1usize), 0xEF);
    assert_eq!(CLIC::get_priority(&regs, 0usize), 0);
}

#[test]
fn set_priority_keeps_the_upper_bits() {
    let mut clic = handle();
    let mut regs = RegisterBlock::new(0, 0, 4);
    regs.set_block(1, InterruptBlock { ip: 1, ie: 1, attr: 0b101, ctl: 0xABCD_12EF });
    clic.set_priority(&mut regs, 1usize, 0x42);
    assert_eq!(regs.block(1), InterruptBlock { ip: 1, ie: 1, attr: 0b101, ctl: 0xABCD_1242 });
    assert_eq!(CLIC::get_priority(&regs, 1usize), 0x42);
    clic.set_priority(&mut regs, 1usize, 0);
    assert_eq!(regs.block(1).ctl, 0xABCD_1200);
    clic.set_priority(&mut regs, 1usize, 255);
    assert_eq!(regs.block(1).ctl, 0xABCD_12FF);
    assert_eq!(regs.block(0), ZERO);
}

#[test]
fn set_trig_then_enable_shv_keeps_the_trigger() {
    let mut clic = handle();
    let mut regs = RegisterBlock::new(0, 0, 8);
    clic.set_trig(&mut regs, 7usize, Trigger::EdgePositive);
    assert_eq!(regs.block(7).attr, 0b010);
    clic.enable_shv(&mut regs, 7usize);
    assert_eq!(regs.block(7).attr, 0b011);
    assert_eq!(regs.block(7), InterruptBlock { attr: 0b011, ..ZERO });
}

#[test]
fn set_trig_keeps_the_vectoring_flag() {
    let mut clic = handle();
    let mut regs = RegisterBlock::new(0, 0, 2);
    clic.enable_shv(&mut regs, 0usize);
    assert_eq!(regs.block(0).attr, 0b001);
    clic.set_trig(&mut regs, 0usize, Trigger::EdgeNegative);
    assert_eq!(regs.block(0).attr, 0b111);
    clic.set_trig(&mut regs, 0usize, Trigger::LevelNegative);
    assert_eq!(regs.block(0).attr, 0b101);
    clic.set_trig(&mut regs, 0usize, Trigger::LevelPositive);
    assert_eq!(regs.block(0).attr, 0b001);
    clic.disable_shv(&mut regs, 0usize);
    assert_eq!(regs.block(0).attr, 0b000);
    assert_eq!(regs.block(1), ZERO);
}

#[test]
fn attribute_writes_keep_the_reserved_bits() {
    let mut clic = handle();
    let mut regs = RegisterBlock::new(0, 0, 1);
    regs.set_block(0, InterruptBlock { attr: 0xFFFF_FFF8, ..ZERO });
    clic.enable_shv(&mut regs, 0usize);
    assert_eq!(regs.block(0).attr, 0xFFFF_FFF9);
    clic.set_trig(&mut regs, 0usize, Trigger::EdgeNegative);
    assert_eq!(regs.block(0).attr, 0xFFFF_FFFF);
    clic.disable_shv(&mut regs, 0usize);
    assert_eq!(regs.block(0).attr, 0xFFFF_FFFE);
    clic.set_trig(&mut regs, 0usize, Trigger::EdgePositive);
    assert_eq!(regs.block(0).attr, 0xFFFF_FFFA);
}

#[test]
fn trigger_encodings() {
    assert_eq!(Trigger::LevelPositive.bits(), 0);
    assert_eq!(Trigger::EdgePositive.bits(), 1);
    assert_eq!(Trigger::LevelNegative.bits(), 2);
    assert_eq!(Trigger::EdgeNegative.bits(), 3);
}

#[test]
fn is_active_compares_the_low_twelve_bits_of_the_cause() {
    assert!(CLIC::is_active(5, 5usize));
    assert!(CLIC::is_active(0x8000_0005, 5usize));
    assert!(CLIC::is_active(0xFFFF_F005, 5usize));
    assert!(!CLIC::is_active(6, 5usize));
    assert!(!CLIC::is_active(0x1005, 0x1005usize));
    assert!(CLIC::is_active(0xFFF, 4095u16));
    assert!(CLIC::is_active(0, 0usize));
}

#[test]
fn mode_bit_width_is_bits_five_and_six() {
    let mut clic = handle();
    let mut regs = RegisterBlock::new(0, 0, 0);
    clic.set_mode_bit_width(&mut regs, 2);
    assert_eq!(regs.cliccfg(), 0b100_0000);
    assert_eq!(clic.get_mode_bit_width(&regs), 2);
    clic.set_mode_bit_width(&mut regs, 3);
    assert_eq!(regs.cliccfg(), 0b110_0000);
    // A width that does not fit the field is cut to its low two bits.
    clic.set_mode_bit_width(&mut regs, 0b101);
    assert_eq!(regs.cliccfg(), 0b010_0000);
    assert_eq!(clic.get_mode_bit_width(&regs), 1);
}

#[test]
fn level_bit_width_is_bits_one_to_four() {
    let mut clic = handle();
    let mut regs = RegisterBlock::new(0xFFFF_FFFF, 0, 0);
    clic.set_level_bit_width(&mut regs, 0b1010);
    assert_eq!(regs.cliccfg(), 0xFFFF_FFF5);
    assert_eq!(clic.get_level_bit_width(&regs), 0b1010);
    assert_eq!(clic.get_mode_bit_width(&regs), 3);
    clic.set_level_bit_width(&mut regs, 0x35);
    assert_eq!(regs.cliccfg(), 0xFFFF_FFEB);
    assert_eq!(clic.get_level_bit_width(&regs), 5);
}

#[test]
fn configuration_writes_leave_the_lines_alone() {
    let mut clic = handle();
    let mut regs = RegisterBlock::new(0, 0x3E00_0000, 3);
    regs.set_block(1, InterruptBlock { ip: 1, ie: 1, attr: 3, ctl: 9 });
    clic.set_mode_bit_width(&mut regs, 1);
    clic.set_level_bit_width(&mut regs, 8);
    assert_eq!(regs.cliccfg(), 0b011_0000);
    assert_eq!(regs.clicinfo(), 0x3E00_0000);
    assert_eq!(regs.block(0), ZERO);
    assert_eq!(regs.block(1), InterruptBlock { ip: 1, ie: 1, attr: 3, ctl: 9 });
    assert_eq!(regs.block(2), ZERO);
}

#[test]
fn vectoring_is_implemented_where_bit_zero_is_clear() {
    let mut clic = handle();
    assert!(clic.has_interrupt_vectoring(&RegisterBlock::new(0, 0, 0)));
    assert!(clic.has_interrupt_vectoring(&RegisterBlock::new(0xFFFF_FFFE, 0, 0)));
    assert!(!clic.has_interrupt_vectoring(&RegisterBlock::new(1, 0, 0)));
    assert!(!clic.has_interrupt_vectoring(&RegisterBlock::new(0xFFFF_FFFF, 0, 0)));
}

#[test]
fn get_num_int_reads_bits_twenty_five_to_thirty() {
    let mut clic = handle();
    let regs = RegisterBlock::new(0, 0x3E00_0000, 0);
    assert_eq!(clic.get_num_int(&regs), 31);
    assert_eq!(clic.get_num_int(&RegisterBlock::new(0, 0x7E00_0000, 0)), 63);
    assert_eq!(clic.get_num_int(&RegisterBlock::new(0, 0x81FF_FFFF, 0)), 0);
}

#[test]
fn information_word_fields() {
    let mut clic = handle();
    // 12 interrupts configured, 8 priority bits, version 0x21, at most 4095
    // interrupts.
    let info = (12 << 25) | (8 << 21) | (0x21 << 13) | 4095;
    let regs = RegisterBlock::new(0, info, 0);
    assert_eq!(clic.get_num_int(&regs), 12);
    assert_eq!(clic.get_possible_level_bits(&regs), 8);
    assert_eq!(clic.get_version(&regs), 0x21);
    assert_eq!(clic.get_max_interrupts(&regs), 4095);
    let regs = RegisterBlock::new(0, 0xFFFF_FFFF, 0);
    assert_eq!(clic.get_num_int(&regs), 63);
    assert_eq!(clic.get_possible_level_bits(&regs), 15);
    assert_eq!(clic.get_version(&regs), 255);
    assert_eq!(clic.get_max_interrupts(&regs), 8191);
}

#[test]
fn control_block_operations() {
    let mut block = InterruptBlock { ip: 0, ie: 0, attr: 0, ctl: 0x100 };
    block.unmask();
    assert!(block.is_enabled());
    block.mask();
    assert!(!block.is_enabled());
    block.pend();
    assert!(block.is_pending());
    block.unpend();
    assert!(!block.is_pending());
    block.set_priority(7);
    assert_eq!(block.get_priority(), 7);
    block.set_trig(Trigger::LevelNegative);
    block.enable_shv();
    assert_eq!(block, InterruptBlock { ip: 0, ie: 0, attr: 0b101, ctl: 0x107 });
    block.disable_shv();
    assert_eq!(block.attr, 0b100);
}
